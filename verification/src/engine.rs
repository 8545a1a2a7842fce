//! The order engine: idempotent creation, price reconciliation and the
//! one-directional payment transition.
//!
//! The engine owns the master key, the configured minimum amount and the
//! invoice store. Every mutating operation takes `&mut self`, so ownership
//! serializes all writes: concurrent callers are totally ordered, and for
//! one (recipient, order) pair exactly one creation can run first.

use vstd::prelude::*;
use crate::account::{Account, MasterKey, ACCOUNT_LEN};
use crate::derive::{derive_deposit_account, derive_ok, derive_view, DeriveError, MAX_ORDER_LEN};
use crate::invoice::{opt_string_view, Invoice, InvoiceStatus, InvoiceView};
use crate::store::{count_paid, count_unpaid, store_map, unique_keys, InvoiceStore, StoreRow};

verus! {

/// The outcome of an order creation or modification request, carrying the
/// invoice the store holds after the request.
#[derive(Debug)]
pub enum OrderOutcome {
    /// The order did not exist and was created unpaid.
    NewOrder(Invoice),
    /// The order already existed and was returned unchanged.
    FoundOrder(Invoice),
    /// The order existed unpaid and its requested amount was updated by an
    /// explicit modification request.
    ModifiedOrder(Invoice),
    /// The order existed unpaid under a different requested amount; the
    /// stored invoice is returned and kept unchanged.
    CollidedOrder(Invoice),
}

/// Why an order request is rejected. A rejected request has no side effect.
#[derive(Clone, Copy, PartialEq, Eq, Structural, Debug)]
pub enum OrderError {
    /// The requested amount is below the configured minimum; the minimum is
    /// carried for reporting.
    BelowMinimum { minimum: u64 },
    /// The recipient encoding is not a raw 32-byte public key.
    InvalidRecipient,
    /// The order identifier is too long for the derivation encoding.
    InvalidOrder,
    /// A modification request named an order that does not exist.
    UnknownOrder,
}

/// Why a paid notification is rejected.
#[derive(Clone, Copy, PartialEq, Eq, Structural, Debug)]
pub enum MarkPaidError {
    /// No invoice is stored under the notified deposit account.
    UnknownInvoice,
}

/// A point-in-time snapshot of the service, recomputed on every call.
#[derive(Clone, Copy, PartialEq, Eq, Structural, Debug)]
pub struct ServerStatus {
    /// How many stored invoices are unpaid.
    pub pending_count: usize,
    /// How many stored invoices are paid.
    pub paid_count: usize,
    /// Whether the store answered the scan.
    pub store_reachable: bool,
    /// Whether the externally supplied chain feed reports connectivity.
    pub chain_connected: bool,
}

/// The invoice a creation request stores when the order is new.
pub open spec fn new_invoice_view(
    recipient: Seq<u8>,
    order: Seq<u8>,
    requested: u64,
    currency: Option<Seq<char>>,
    callback: Option<Seq<char>>,
    created_at: u64,
) -> InvoiceView {
    InvoiceView {
        recipient,
        order,
        status: InvoiceStatus::Unpaid { requested },
        currency,
        callback,
        created_at,
        withdrawn: false,
    }
}

/// The same invoice after the paid transition.
pub open spec fn paid_view(inv: InvoiceView, received: u64) -> InvoiceView {
    InvoiceView { status: InvoiceStatus::Paid { received }, ..inv }
}

/// The same invoice after its requested amount is modified.
pub open spec fn modified_view(inv: InvoiceView, requested: u64) -> InvoiceView {
    InvoiceView { status: InvoiceStatus::Unpaid { requested }, ..inv }
}

/// A creation request for key `k` creates a fresh invoice exactly when the
/// store holds none.
pub open spec fn create_is_new(m: Map<Seq<u8>, InvoiceView>, k: Seq<u8>) -> bool {
    !m.contains_key(k)
}

/// A creation request finds an existing order when the stored invoice is
/// already paid (the requested amount of a replay is then irrelevant) or is
/// unpaid under the same requested amount (an idempotent replay).
pub open spec fn create_is_found(m: Map<Seq<u8>, InvoiceView>, k: Seq<u8>, requested: u64) -> bool {
    m.contains_key(k) && (m[k].status is Paid || m[k].status.amount() == requested)
}

/// A creation request collides when the stored invoice is unpaid under a
/// different requested amount; plain creation never overwrites it.
pub open spec fn create_is_collided(
    m: Map<Seq<u8>, InvoiceView>,
    k: Seq<u8>,
    requested: u64,
) -> bool {
    m.contains_key(k) && m[k].status is Unpaid && m[k].status.amount() != requested
}

/// The engine holding the master key, the configured minimum amount and
/// the invoice store.
pub struct OrderEngine {
    master: MasterKey,
    min_amount: u64,
    store: InvoiceStore,
}

impl OrderEngine {
    /// The master seed, visible to specifications alone.
    pub closed spec fn master_seq(&self) -> Seq<u8> {
        self.master@
    }

    /// The stored rows.
    pub closed spec fn rows(&self) -> Seq<StoreRow> {
        self.store@
    }

    /// The configured minimum (existential-deposit) amount.
    pub closed spec fn min_amount_spec(&self) -> u64 {
        self.min_amount
    }

    /// The mapping from deposit account to invoice the store spells out.
    pub open spec fn invoices(&self) -> Map<Seq<u8>, InvoiceView> {
        store_map(self.rows())
    }

    /// The deposit-account key of a (recipient, order) pair under this
    /// engine's master key.
    pub open spec fn key_of(&self, recipient: Seq<u8>, order: Seq<u8>) -> Seq<u8> {
        derive_view(self.master_seq(), recipient, order)
    }

    /// Well-formed engines hold a full-length master seed and at most one
    /// row per deposit account.
    pub open spec fn wf(&self) -> bool {
        self.master_seq().len() == ACCOUNT_LEN && unique_keys(self.rows())
    }

    /// An engine over an empty store.
    pub fn new(master: MasterKey, min_amount: u64) -> (r: OrderEngine)
        requires
            master.wf(),
        ensures
            r.wf(),
            r.master_seq() == master@,
            r.min_amount_spec() == min_amount,
            r.rows() == Seq::<StoreRow>::empty(),
    {
        OrderEngine { master, min_amount, store: InvoiceStore::new() }
    }

    /// The configured minimum amount.
    pub fn minimum_amount(&self) -> (r: u64)
        ensures
            r == self.min_amount_spec(),
    {
        self.min_amount
    }

    /// Derives the deposit account of (recipient, order) under this
    /// engine's master key. Only the public account leaves; no seed
    /// material does.
    pub fn derive_account(&self, recipient: &Vec<u8>, order: &Vec<u8>) -> (r: Option<
        Account,
    >)
        requires
            self.wf(),
        ensures
            derive_ok(recipient@, order@) ==> (r matches Some(a) && a@ == self.key_of(
                recipient@,
                order@,
            ) && a.wf()),
            !derive_ok(recipient@, order@) ==> r is None,
    {
        match derive_deposit_account(&self.master, recipient, order) {
            Ok(a) => Some(a),
            Err(_) => None,
        }
    }

    /// Reads the invoice stored under a deposit account.
    pub(crate) fn lookup(&self, account: &Account) -> (r: Option<&Invoice>)
        requires
            self.wf(),
        ensures
            self.invoices().contains_key(account@) ==> (r matches Some(inv) && inv@
                == self.invoices()[account@]),
            !self.invoices().contains_key(account@) ==> r is None,
    {
        self.store.get(account)
    }

    /// Stores an invoice under a deposit account.
    pub(crate) fn put_row(&mut self, account: Account, invoice: Invoice)
        requires
            old(self).wf(),
        ensures
            final(self).wf(),
            final(self).master_seq() == old(self).master_seq(),
            final(self).min_amount_spec() == old(self).min_amount_spec(),
            final(self).invoices() == old(self).invoices().insert(account@, invoice@),
            old(self).invoices().contains_key(account@) ==> final(self).rows().len() == old(
                self,
            ).rows().len(),
            !old(self).invoices().contains_key(account@) ==> final(self).rows() == old(
                self,
            ).rows().push((account@, invoice@)),
    {
        self.store.put(account, invoice);
    }

    /// Creates the invoice for (recipient, order) or reports the one the
    /// store already holds.
    ///
    /// A request below the configured minimum, with a malformed recipient
    /// or with an over-long order identifier is rejected, in that order of
    /// checks, and leaves the store untouched. An accepted request derives
    /// the deposit-account key and resolves in one atomic step: no stored
    /// invoice yields `NewOrder` and stores the fresh unpaid invoice; a
    /// stored invoice that is paid, or unpaid under the same requested
    /// amount, yields `FoundOrder` and changes nothing; an unpaid invoice
    /// under a different requested amount yields `CollidedOrder` carrying
    /// the saved invoice, and the saved amount stays.
    pub fn create_or_get_order(
        &mut self,
        recipient: &Vec<u8>,
        order: &Vec<u8>,
        requested: u64,
        currency: Option<String>,
        callback: Option<String>,
        created_at: u64,
    ) -> (r: Result<OrderOutcome, OrderError>)
        requires
            old(self).wf(),
        ensures
            final(self).wf(),
            final(self).master_seq() == old(self).master_seq(),
            final(self).min_amount_spec() == old(self).min_amount_spec(),
            (r == Err::<OrderOutcome, OrderError>(
                OrderError::BelowMinimum { minimum: old(self).min_amount_spec() },
            )) <==> requested < old(self).min_amount_spec(),
            (r == Err::<OrderOutcome, OrderError>(OrderError::InvalidRecipient)) <==> (requested
                >= old(self).min_amount_spec() && recipient@.len() != ACCOUNT_LEN),
            (r == Err::<OrderOutcome, OrderError>(OrderError::InvalidOrder)) <==> (requested >= old(
                self,
            ).min_amount_spec() && recipient@.len() == ACCOUNT_LEN && order@.len()
                > MAX_ORDER_LEN),
            r is Err ==> final(self).rows() == old(self).rows(),
            !(r == Err::<OrderOutcome, OrderError>(OrderError::UnknownOrder)),
            (requested >= old(self).min_amount_spec() && derive_ok(recipient@, order@)) ==> {
                let k = old(self).key_of(recipient@, order@);
                let m = old(self).invoices();
                &&& create_is_new(m, k) ==> (r matches Ok(OrderOutcome::NewOrder(inv)) && inv@
                    == new_invoice_view(
                    recipient@,
                    order@,
                    requested,
                    opt_string_view(currency),
                    opt_string_view(callback),
                    created_at,
                ) && final(self).rows() == old(self).rows().push((k, inv@))
                    && final(self).invoices() == m.insert(k, inv@))
                &&& create_is_found(m, k, requested) ==> (r matches Ok(
                    OrderOutcome::FoundOrder(inv),
                ) && inv@ == m[k] && final(self).rows() == old(self).rows())
                &&& create_is_collided(m, k, requested) ==> (r matches Ok(
                    OrderOutcome::CollidedOrder(inv),
                ) && inv@ == m[k] && final(self).rows() == old(self).rows())
            },
    {
        if requested < self.min_amount {
            return Err(OrderError::BelowMinimum { minimum: self.min_amount });
        }
        let account = match derive_deposit_account(&self.master, recipient, order) {
            Ok(a) => a,
            Err(DeriveError::InvalidRecipient) => {
                return Err(OrderError::InvalidRecipient);
            },
            Err(DeriveError::InvalidOrder) => {
                return Err(OrderError::InvalidOrder);
            },
        };
        match self.store.get(&account) {
            Some(stored) => {
                let existing = stored.duplicate();
                match existing.status {
                    InvoiceStatus::Paid { .. } => Ok(OrderOutcome::FoundOrder(existing)),
                    InvoiceStatus::Unpaid { requested: saved } => {
                        if saved == requested {
                            Ok(OrderOutcome::FoundOrder(existing))
                        } else {
                            Ok(OrderOutcome::CollidedOrder(existing))
                        }
                    },
                }
            },
            None => {
                let recipient_bytes = recipient.clone();
                proof {
                    assert(recipient_bytes@ =~= recipient@);
                }
                let recipient_account = match Account::from_bytes(recipient_bytes) {
                    Some(a) => a,
                    None => {
                        return Err(OrderError::InvalidRecipient);
                    },
                };
                let order_bytes = order.clone();
                proof {
                    assert(order_bytes@ =~= order@);
                }
                let invoice = Invoice {
                    recipient: recipient_account,
                    order: order_bytes,
                    status: InvoiceStatus::Unpaid { requested },
                    currency,
                    callback,
                    created_at,
                    withdrawn: false,
                };
                let reply = invoice.duplicate();
                proof {
                    assert(invoice@ =~= new_invoice_view(
                        recipient@,
                        order@,
                        requested,
                        opt_string_view(invoice.currency),
                        opt_string_view(invoice.callback),
                        created_at,
                    ));
                }
                self.store.put(account, invoice);
                Ok(OrderOutcome::NewOrder(reply))
            },
        }
    }

    /// Applies a payment observation to the invoice of a deposit account.
    ///
    /// An unknown account is rejected without mutation. An invoice already
    /// paid is returned unchanged whatever amount the duplicate
    /// notification carries. An unpaid invoice moves to `Paid(received)` —
    /// the only transition into the paid state — and the updated invoice is
    /// returned.
    pub fn mark_paid(&mut self, account: &Account, received: u64) -> (r: Result<
        Invoice,
        MarkPaidError,
    >)
        requires
            old(self).wf(),
        ensures
            final(self).wf(),
            final(self).master_seq() == old(self).master_seq(),
            final(self).min_amount_spec() == old(self).min_amount_spec(),
            (r == Err::<Invoice, MarkPaidError>(MarkPaidError::UnknownInvoice)) <==> !old(
                self,
            ).invoices().contains_key(account@),
            r is Err ==> final(self).rows() == old(self).rows(),
            old(self).invoices().contains_key(account@) && old(
                self,
            ).invoices()[account@].status is Paid ==> (r matches Ok(inv) && inv@ == old(
                self,
            ).invoices()[account@] && final(self).rows() == old(self).rows()),
            old(self).invoices().contains_key(account@) && old(
                self,
            ).invoices()[account@].status is Unpaid ==> (r matches Ok(inv) && inv@ == paid_view(
                old(self).invoices()[account@],
                received,
            ) && final(self).invoices() == old(self).invoices().insert(account@, inv@)
                && final(self).rows().len() == old(self).rows().len()),
    {
        match self.store.get(account) {
            None => Err(MarkPaidError::UnknownInvoice),
            Some(stored) => {
                match stored.status {
                    InvoiceStatus::Paid { .. } => Ok(stored.duplicate()),
                    InvoiceStatus::Unpaid { .. } => {
                        let mut updated = stored.duplicate();
                        updated.status = InvoiceStatus::Paid { received };
                        let reply = updated.duplicate();
                        proof {
                            assert(updated@ =~= paid_view(
                                old(self).invoices()[account@],
                                received,
                            ));
                        }
                        self.store.put(account.duplicate(), updated);
                        Ok(reply)
                    },
                }
            },
        }
    }

    /// Looks the invoice of (recipient, order) up without mutating anything.
    pub fn get_order(&self, recipient: &Vec<u8>, order: &Vec<u8>) -> (r: Option<Invoice>)
        requires
            self.wf(),
        ensures
            derive_ok(recipient@, order@) ==> {
                let k = self.key_of(recipient@, order@);
                &&& self.invoices().contains_key(k) ==> (r matches Some(inv) && inv@
                    == self.invoices()[k])
                &&& !self.invoices().contains_key(k) ==> r is None
            },
            !derive_ok(recipient@, order@) ==> r is None,
    {
        match derive_deposit_account(&self.master, recipient, order) {
            Err(_) => None,
            Ok(account) => {
                match self.store.get(&account) {
                    None => None,
                    Some(stored) => Some(stored.duplicate()),
                }
            },
        }
    }

    /// Updates the requested amount of an existing unpaid order: the
    /// explicit modification request that plain creation never performs.
    ///
    /// The checks mirror creation: an amount below the minimum, a malformed
    /// recipient and an over-long order are rejected without side effect,
    /// and so is an unknown order. A paid invoice is returned unchanged as
    /// `FoundOrder`; an unpaid one under the same amount likewise; an
    /// unpaid one under a different amount is rewritten to the new amount
    /// and returned as `ModifiedOrder`.
    pub fn modify_order(&mut self, recipient: &Vec<u8>, order: &Vec<u8>, requested: u64) -> (r:
        Result<OrderOutcome, OrderError>)
        requires
            old(self).wf(),
        ensures
            final(self).wf(),
            final(self).master_seq() == old(self).master_seq(),
            final(self).min_amount_spec() == old(self).min_amount_spec(),
            (r == Err::<OrderOutcome, OrderError>(
                OrderError::BelowMinimum { minimum: old(self).min_amount_spec() },
            )) <==> requested < old(self).min_amount_spec(),
            (r == Err::<OrderOutcome, OrderError>(OrderError::InvalidRecipient)) <==> (requested
                >= old(self).min_amount_spec() && recipient@.len() != ACCOUNT_LEN),
            (r == Err::<OrderOutcome, OrderError>(OrderError::InvalidOrder)) <==> (requested >= old(
                self,
            ).min_amount_spec() && recipient@.len() == ACCOUNT_LEN && order@.len()
                > MAX_ORDER_LEN),
            (r == Err::<OrderOutcome, OrderError>(OrderError::UnknownOrder)) <==> (requested >= old(
                self,
            ).min_amount_spec() && derive_ok(recipient@, order@) && !old(
                self,
            ).invoices().contains_key(old(self).key_of(recipient@, order@))),
            r is Err ==> final(self).rows() == old(self).rows(),
            (requested >= old(self).min_amount_spec() && derive_ok(recipient@, order@) && old(
                self,
            ).invoices().contains_key(old(self).key_of(recipient@, order@))) ==> {
                let k = old(self).key_of(recipient@, order@);
                let m = old(self).invoices();
                &&& create_is_found(m, k, requested) ==> (r matches Ok(
                    OrderOutcome::FoundOrder(inv),
                ) && inv@ == m[k] && final(self).rows() == old(self).rows())
                &&& create_is_collided(m, k, requested) ==> (r matches Ok(
                    OrderOutcome::ModifiedOrder(inv),
                ) && inv@ == modified_view(m[k], requested) && final(self).invoices() == m.insert(
                    k,
                    inv@,
                ) && final(self).rows().len() == old(self).rows().len())
            },
    {
        if requested < self.min_amount {
            return Err(OrderError::BelowMinimum { minimum: self.min_amount });
        }
        let account = match derive_deposit_account(&self.master, recipient, order) {
            Ok(a) => a,
            Err(DeriveError::InvalidRecipient) => {
                return Err(OrderError::InvalidRecipient);
            },
            Err(DeriveError::InvalidOrder) => {
                return Err(OrderError::InvalidOrder);
            },
        };
        match self.store.get(&account) {
            None => Err(OrderError::UnknownOrder),
            Some(stored) => {
                match stored.status {
                    InvoiceStatus::Paid { .. } => Ok(OrderOutcome::FoundOrder(stored.duplicate())),
                    InvoiceStatus::Unpaid { requested: saved } => {
                        if saved == requested {
                            Ok(OrderOutcome::FoundOrder(stored.duplicate()))
                        } else {
                            let mut updated = stored.duplicate();
                            updated.status = InvoiceStatus::Unpaid { requested };
                            let reply = updated.duplicate();
                            proof {
                                assert(updated@ =~= modified_view(
                                    old(self).invoices()[account@],
                                    requested,
                                ));
                            }
                            self.store.put(account, updated);
                            Ok(OrderOutcome::ModifiedOrder(reply))
                        }
                    },
                }
            },
        }
    }

    /// A point-in-time service snapshot: the invoice counts are recomputed
    /// from the stored rows on every call, never served from a cache, and
    /// the chain flag is the externally observed connectivity signal.
    pub fn server_status(&self, chain_connected: bool) -> (r: ServerStatus)
        ensures
            r.pending_count == count_unpaid(self.rows()),
            r.paid_count == count_paid(self.rows()),
            r.store_reachable,
            r.chain_connected == chain_connected,
    {
        let (pending_count, paid_count) = self.store.status_counts();
        ServerStatus { pending_count, paid_count, store_reachable: true, chain_connected }
    }
}

} // verus!
