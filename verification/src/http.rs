//! The status codes the reference transport binding answers with. The
//! transport layer itself lives outside the library; these mappings pin
//! which code each engine outcome is owed.

use vstd::prelude::*;
use crate::engine::{OrderError, OrderOutcome};
use crate::withdraw::WithdrawalError;

verus! {

/// The code of a created order.
pub const CODE_CREATED: u16 = 201;

/// The code of a found or modified order.
pub const CODE_OK: u16 = 200;

/// The code of a collided order.
pub const CODE_CONFLICT: u16 = 409;

/// The code of a rejected request.
pub const CODE_BAD_REQUEST: u16 = 400;

/// The code of an unknown order.
pub const CODE_NOT_FOUND: u16 = 404;

/// The code of a placeholder endpoint.
pub const CODE_NOT_IMPLEMENTED: u16 = 501;

/// The status code of an order outcome: created answers 201, found and
/// modified 200, collided 409.
pub fn order_outcome_code(outcome: &OrderOutcome) -> (c: u16)
    ensures
        outcome matches OrderOutcome::NewOrder(_) ==> c == CODE_CREATED,
        outcome matches OrderOutcome::FoundOrder(_) ==> c == CODE_OK,
        outcome matches OrderOutcome::ModifiedOrder(_) ==> c == CODE_OK,
        outcome matches OrderOutcome::CollidedOrder(_) ==> c == CODE_CONFLICT,
{
    match outcome {
        OrderOutcome::NewOrder(_) => CODE_CREATED,
        OrderOutcome::FoundOrder(_) => CODE_OK,
        OrderOutcome::ModifiedOrder(_) => CODE_OK,
        OrderOutcome::CollidedOrder(_) => CODE_CONFLICT,
    }
}

/// The status code of a rejected order request: every validation rejection
/// answers 400, an unknown order on modification 404.
pub fn order_error_code(error: &OrderError) -> (c: u16)
    ensures
        c == if error is UnknownOrder {
            CODE_NOT_FOUND
        } else {
            CODE_BAD_REQUEST
        },
{
    match error {
        OrderError::UnknownOrder => CODE_NOT_FOUND,
        OrderError::BelowMinimum { .. } => CODE_BAD_REQUEST,
        OrderError::InvalidRecipient => CODE_BAD_REQUEST,
        OrderError::InvalidOrder => CODE_BAD_REQUEST,
    }
}

/// The status code of a rejected withdrawal: a structured 400 whatever the
/// reason, which the body then carries.
pub fn withdrawal_error_code(error: &WithdrawalError) -> (c: u16)
    ensures
        c == CODE_BAD_REQUEST,
{
    match error {
        WithdrawalError::NotPayable => CODE_BAD_REQUEST,
        WithdrawalError::AlreadyWithdrawn => CODE_BAD_REQUEST,
        WithdrawalError::InsufficientBalance => CODE_BAD_REQUEST,
        WithdrawalError::ChainUnreachable => CODE_BAD_REQUEST,
    }
}

/// The explicit reply of a placeholder endpoint: it answers 501 and never
/// takes the serving process down.
pub fn placeholder_code() -> (c: u16)
    ensures
        c == CODE_NOT_IMPLEMENTED,
{
    CODE_NOT_IMPLEMENTED
}

} // verus!
