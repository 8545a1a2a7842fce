//! Deterministic derivation of per-invoice deposit accounts.
//!
//! A deposit account is derived from the master seed in two hardened steps:
//! the first mixes the seed with the recipient's raw public-key bytes, the
//! second mixes the outcome of the first with a fixed-length (hashed)
//! encoding of the order identifier. Every step runs the mix through
//! SHA-256 under a distinct domain byte, so the derivation is a pure
//! function of (seed, recipient, order), requires the seed, and exposes no
//! seed material in its result.

use vstd::prelude::*;
use crate::account::{Account, MasterKey, ACCOUNT_LEN};

verus! {

/// Domain byte of the recipient-keyed derivation step.
pub const DOMAIN_RECIPIENT: u8 = 1;

/// Domain byte of the order-keyed derivation step.
pub const DOMAIN_ORDER: u8 = 2;

/// Longest order identifier (in bytes) the deriver accepts.
pub const MAX_ORDER_LEN: usize = 2048;

/// The SHA-256 digest of a byte sequence, as the `sha2` crate computes it.
pub uninterp spec fn sha256_of(input: Seq<u8>) -> Seq<u8>;

/// Relies on `sha2::Sha256::digest` (the `digest` crate's `Digest::digest`):
/// the 32-byte SHA-256 digest of the input, a function of the input bytes
/// alone.
#[verifier::external_body]
fn sha256(input: &Vec<u8>) -> (r: Vec<u8>)
    ensures
        r@ == sha256_of(input@),
        r@.len() == 32,
{
    <sha2::Sha256 as sha2::Digest>::digest(input).to_vec()
}

/// Why a derivation request is rejected.
#[derive(Clone, Copy, PartialEq, Eq, Structural, Debug)]
pub enum DeriveError {
    /// The recipient encoding is not a raw 32-byte public key.
    InvalidRecipient,
    /// The order identifier is too long for the derivation encoding.
    InvalidOrder,
}

/// The bytes of the deposit account derived from a master seed, a recipient
/// and an order identifier: two hardened SHA-256 steps under distinct
/// domain bytes, the order identifier hashed first to a fixed length.
pub open spec fn derive_view(seed: Seq<u8>, recipient: Seq<u8>, order: Seq<u8>) -> Seq<u8> {
    sha256_of(
        seq![DOMAIN_ORDER] + sha256_of(seq![DOMAIN_RECIPIENT] + seed + recipient) + sha256_of(
            order,
        ),
    )
}

/// Whether the deriver accepts a (recipient, order) pair.
pub open spec fn derive_ok(recipient: Seq<u8>, order: Seq<u8>) -> bool {
    recipient.len() == ACCOUNT_LEN && order.len() <= MAX_ORDER_LEN
}

/// Appends `src` to `dst`.
fn append_bytes(dst: &mut Vec<u8>, src: &Vec<u8>)
    ensures
        final(dst)@ == old(dst)@ + src@,
{
    let ghost orig: Seq<u8> = dst@;
    let n = src.len();
    let mut i: usize = 0;
    proof {
        assert(dst@ =~= orig + src@.subrange(0, 0));
    }
    while i < n
        invariant
            n == src@.len(),
            0 <= i <= n,
            dst@ == orig + src@.subrange(0, i as int),
        decreases n - i,
    {
        dst.push(src[i]);
        proof {
            assert(dst@ =~= orig + src@.subrange(0, (i + 1) as int));
        }
        i = i + 1;
    }
    proof {
        assert(src@.subrange(0, n as int) =~= src@);
    }
}

/// Derives the deposit account for (recipient, order) under the master key.
///
/// The derivation is deterministic and total on accepted inputs: a raw
/// 32-byte recipient key and an order identifier of at most
/// `MAX_ORDER_LEN` bytes always yield the account whose bytes are
/// `derive_view(master, recipient, order)`. A malformed recipient is
/// rejected as `InvalidRecipient`, an over-long order as `InvalidOrder`,
/// and neither rejection touches any state.
pub fn derive_deposit_account(master: &MasterKey, recipient: &Vec<u8>, order: &Vec<u8>) -> (r:
    Result<Account, DeriveError>)
    requires
        master.wf(),
    ensures
        derive_ok(recipient@, order@) ==> (r matches Ok(a) && a@ == derive_view(
            master@,
            recipient@,
            order@,
        ) && a.wf()),
        recipient@.len() != ACCOUNT_LEN ==> r == Err::<Account, DeriveError>(
            DeriveError::InvalidRecipient,
        ),
        recipient@.len() == ACCOUNT_LEN && order@.len() > MAX_ORDER_LEN ==> r == Err::<
            Account,
            DeriveError,
        >(DeriveError::InvalidOrder),
{
    if recipient.len() != ACCOUNT_LEN {
        return Err(DeriveError::InvalidRecipient);
    }
    if order.len() > MAX_ORDER_LEN {
        return Err(DeriveError::InvalidOrder);
    }
    let mut step1_input: Vec<u8> = Vec::new();
    step1_input.push(DOMAIN_RECIPIENT);
    append_bytes(&mut step1_input, master.seed_bytes());
    append_bytes(&mut step1_input, recipient);
    proof {
        assert(step1_input@ =~= seq![DOMAIN_RECIPIENT] + master@ + recipient@);
    }
    let step1 = sha256(&step1_input);

    let order_component = sha256(order);

    let mut step2_input: Vec<u8> = Vec::new();
    step2_input.push(DOMAIN_ORDER);
    append_bytes(&mut step2_input, &step1);
    append_bytes(&mut step2_input, &order_component);
    proof {
        assert(step2_input@ =~= seq![DOMAIN_ORDER] + sha256_of(
            seq![DOMAIN_RECIPIENT] + master@ + recipient@,
        ) + sha256_of(order@));
    }
    let out = sha256(&step2_input);

    match Account::from_bytes(out) {
        Some(account) => Ok(account),
        None => Err(DeriveError::InvalidRecipient),
    }
}

} // verus!
