//! Engine-wide laws, proved over the same spec functions the engine's
//! contracts use.

use vstd::prelude::*;
use crate::derive::derive_view;
use crate::engine::{create_is_collided, create_is_found, create_is_new, paid_view};
use crate::invoice::{InvoiceStatus, InvoiceView};
use crate::withdraw::{withdrawal_already_done, withdrawal_ready, withdrawn_view};

verus! {

/// Determinism of derivation: any two deposit accounts derived from one
/// (master seed, recipient, order) triple are the same account — repeated
/// derivation calls can never disagree.
pub proof fn lemma_derivation_deterministic(
    master: Seq<u8>,
    recipient: Seq<u8>,
    order: Seq<u8>,
    a1: Seq<u8>,
    a2: Seq<u8>,
)
    requires
        a1 == derive_view(master, recipient, order),
        a2 == derive_view(master, recipient, order),
    ensures
        a1 == a2,
{
}

/// Idempotent creation: on a store without the order's key, a creation
/// request resolves as `NewOrder` and stores the unpaid invoice; repeating
/// it with the identical requested amount resolves as `FoundOrder`, which
/// mutates nothing, and the store holds exactly that one invoice under the
/// key.
pub proof fn lemma_idempotent_creation(m: Map<Seq<u8>, InvoiceView>, k: Seq<u8>, inv: InvoiceView)
    requires
        !m.contains_key(k),
        inv.status matches InvoiceStatus::Unpaid { .. },
    ensures
        create_is_new(m, k),
        create_is_found(m.insert(k, inv), k, inv.status.amount()),
        !create_is_new(m.insert(k, inv), k),
        !create_is_collided(m.insert(k, inv), k, inv.status.amount()),
        m.insert(k, inv)[k] == inv,
{
}

/// Collision detection: after an order is created unpaid with one amount, a
/// creation request for the same order under a different amount resolves as
/// `CollidedOrder`, which mutates nothing, so the stored amount remains the
/// first.
pub proof fn lemma_collision_detection(
    m: Map<Seq<u8>, InvoiceView>,
    k: Seq<u8>,
    inv: InvoiceView,
    second: u64,
)
    requires
        !m.contains_key(k),
        inv.status matches InvoiceStatus::Unpaid { .. },
        second != inv.status.amount(),
    ensures
        create_is_collided(m.insert(k, inv), k, second),
        !create_is_found(m.insert(k, inv), k, second),
        m.insert(k, inv)[k].status.amount() == inv.status.amount(),
{
}

/// Monotonic status: the paid transition moves an unpaid invoice to
/// `Paid(received)` once; the invoice a second notification meets is
/// already paid, which the engine's paid-transition contract answers with
/// the stored invoice unchanged — the recorded amount stays the first one
/// received, whatever amount the duplicate carries.
pub proof fn lemma_monotonic_status(
    m: Map<Seq<u8>, InvoiceView>,
    k: Seq<u8>,
    received: u64,
    second: u64,
)
    requires
        m.contains_key(k),
        m[k].status matches InvoiceStatus::Unpaid { .. },
    ensures
        ({
            let m1 = m.insert(k, paid_view(m[k], received));
            &&& m1.contains_key(k)
            &&& m1[k].status is Paid
            &&& m1[k].status.amount() == received
            &&& second != received ==> m1[k].status.amount() != second
        }),
{
}

/// Withdrawal idempotence: once a withdrawal is recorded on a paid invoice,
/// every further withdrawal request for it resolves as `AlreadyWithdrawn`
/// and none is ready to submit a second transfer.
pub proof fn lemma_withdrawal_idempotent(m: Map<Seq<u8>, InvoiceView>, k: Seq<u8>)
    requires
        withdrawal_ready(m, k),
    ensures
        withdrawal_already_done(m.insert(k, withdrawn_view(m[k])), k),
        !withdrawal_ready(m.insert(k, withdrawn_view(m[k])), k),
{
}

/// What one creation request for key `k` with invoice `inv` leaves in the
/// store: the insertion when the key is fresh, the store unchanged
/// otherwise.
pub open spec fn apply_create(
    m: Map<Seq<u8>, InvoiceView>,
    k: Seq<u8>,
    inv: InvoiceView,
) -> Map<Seq<u8>, InvoiceView> {
    if create_is_new(m, k) {
        m.insert(k, inv)
    } else {
        m
    }
}

/// The store after `n` serialized creation requests for one key.
pub open spec fn iterate_create(
    m: Map<Seq<u8>, InvoiceView>,
    k: Seq<u8>,
    inv: InvoiceView,
    n: nat,
) -> Map<Seq<u8>, InvoiceView>
    decreases n,
{
    if n == 0 {
        m
    } else {
        apply_create(iterate_create(m, k, inv, (n - 1) as nat), k, inv)
    }
}

/// How many of `n` serialized creation requests for one key resolve as
/// `NewOrder`.
pub open spec fn new_outcomes(
    m: Map<Seq<u8>, InvoiceView>,
    k: Seq<u8>,
    inv: InvoiceView,
    n: nat,
) -> nat
    decreases n,
{
    if n == 0 {
        0
    } else {
        new_outcomes(m, k, inv, (n - 1) as nat) + if create_is_new(
            iterate_create(m, k, inv, (n - 1) as nat),
            k,
        ) {
            1nat
        } else {
            0nat
        }
    }
}

/// Serialized concurrency: the store's single-writer discipline totally
/// orders `n` simultaneous creation requests for one (recipient, order,
/// amount); in that order exactly one — the first — resolves as `NewOrder`,
/// every later one resolves as `FoundOrder`, and the store ends with the
/// single invoice, never a duplicate row.
pub proof fn lemma_serialized_creates(
    m: Map<Seq<u8>, InvoiceView>,
    k: Seq<u8>,
    inv: InvoiceView,
    n: nat,
)
    requires
        !m.contains_key(k),
        inv.status matches InvoiceStatus::Unpaid { .. },
        n >= 1,
    ensures
        iterate_create(m, k, inv, n) == m.insert(k, inv),
        new_outcomes(m, k, inv, n) == 1,
        forall|i: nat|
            1 <= i < n ==> create_is_found(
                #[trigger] iterate_create(m, k, inv, i),
                k,
                inv.status.amount(),
            ),
    decreases n,
{
    if n == 1 {
        assert(iterate_create(m, k, inv, 0) == m);
        assert(new_outcomes(m, k, inv, 0) == 0);
        assert(iterate_create(m, k, inv, 1) == apply_create(m, k, inv));
        assert(new_outcomes(m, k, inv, 1) == 1);
    } else {
        lemma_serialized_creates(m, k, inv, (n - 1) as nat);
        assert(iterate_create(m, k, inv, n) == apply_create(m.insert(k, inv), k, inv));
        assert(!create_is_new(m.insert(k, inv), k));
        assert(new_outcomes(m, k, inv, n) == new_outcomes(m, k, inv, (n - 1) as nat));
        assert(create_is_found(iterate_create(m, k, inv, (n - 1) as nat), k, inv.status.amount()));
    }
}

} // verus!
