//! Invoice records and their payment status.

use vstd::prelude::*;
use crate::account::{Account, ACCOUNT_LEN};

verus! {

/// Payment status of an invoice. The transition is one-directional:
/// `Unpaid` (carrying the requested amount) moves to `Paid` (carrying the
/// amount actually received) exactly once, and `Paid` is terminal. The
/// received amount need not equal the requested one.
#[derive(Clone, Copy, PartialEq, Eq, Structural, Debug)]
pub enum InvoiceStatus {
    Unpaid { requested: u64 },
    Paid { received: u64 },
}

impl InvoiceStatus {
    /// Whether the invoice has been paid.
    pub open spec fn is_paid(self) -> bool {
        self matches InvoiceStatus::Paid { .. }
    }

    /// The amount the status carries: requested while unpaid, received once
    /// paid.
    pub open spec fn amount(self) -> u64 {
        match self {
            InvoiceStatus::Unpaid { requested } => requested,
            InvoiceStatus::Paid { received } => received,
        }
    }
}

/// The record binding a deposit account to a recipient, an order, a payment
/// status and withdrawal bookkeeping. Keyed externally by its derived
/// deposit account.
#[derive(Debug)]
pub struct Invoice {
    /// The merchant account the order belongs to.
    pub recipient: Account,
    /// The caller-supplied order identifier, scoped per recipient.
    pub order: Vec<u8>,
    /// Payment status; mutated only by the engine's paid transition.
    pub status: InvoiceStatus,
    /// Optional currency label.
    pub currency: Option<String>,
    /// Optional callback URL.
    pub callback: Option<String>,
    /// Creation timestamp, supplied by the caller at creation.
    pub created_at: u64,
    /// Whether a withdrawal of this invoice's balance has been recorded.
    pub withdrawn: bool,
}

/// The mathematical model of an invoice record.
#[verifier::ext_equal]
pub ghost struct InvoiceView {
    pub recipient: Seq<u8>,
    pub order: Seq<u8>,
    pub status: InvoiceStatus,
    pub currency: Option<Seq<char>>,
    pub callback: Option<Seq<char>>,
    pub created_at: u64,
    pub withdrawn: bool,
}

/// The model of an optional string.
pub open spec fn opt_string_view(s: Option<String>) -> Option<Seq<char>> {
    match s {
        Some(c) => Some(c@),
        None => None,
    }
}

impl View for Invoice {
    type V = InvoiceView;

    open spec fn view(&self) -> InvoiceView {
        InvoiceView {
            recipient: self.recipient@,
            order: self.order@,
            status: self.status,
            currency: opt_string_view(self.currency),
            callback: opt_string_view(self.callback),
            created_at: self.created_at,
            withdrawn: self.withdrawn,
        }
    }
}

impl Invoice {
    /// Well-formed invoices carry a full-length recipient key.
    pub open spec fn wf(&self) -> bool {
        self@.recipient.len() == ACCOUNT_LEN
    }

    /// An independent copy describing the same invoice.
    pub fn duplicate(&self) -> (r: Invoice)
        ensures
            r@ == self@,
            r.wf() == self.wf(),
    {
        let order = self.order.clone();
        proof {
            assert(order@ =~= self.order@);
        }
        let r = Invoice {
            recipient: self.recipient.duplicate(),
            order,
            status: self.status,
            currency: clone_opt_string(&self.currency),
            callback: clone_opt_string(&self.callback),
            created_at: self.created_at,
            withdrawn: self.withdrawn,
        };
        proof {
            assert(r@ =~= self@);
        }
        r
    }
}

/// Copies an optional string.
fn clone_opt_string(s: &Option<String>) -> (r: Option<String>)
    ensures
        r == *s,
{
    match s {
        Some(c) => Some(c.clone()),
        None => None,
    }
}

} // verus!
