//! The invoice store: a mapping from deposit account to invoice record.
//!
//! The store is the single home of mutable engine state. Mutation goes
//! through `&mut` methods, so every write is serialized by ownership: two
//! writers can never interleave, which gives the single-writer discipline
//! the engine's reconciliation rules assume. Each operation either applies
//! whole or (on a rejected request) not at all.

use vstd::prelude::*;
use crate::account::Account;
use crate::invoice::{Invoice, InvoiceStatus, InvoiceView};

verus! {

/// One stored row: the deposit-account key and its invoice.
pub type StoreRow = (Seq<u8>, InvoiceView);

/// Whether no two rows share a key.
pub open spec fn unique_keys(s: Seq<StoreRow>) -> bool {
    forall|i: int, j: int| 0 <= i < j < s.len() ==> s[i].0 != s[j].0
}

/// The mapping the rows spell out; a later row for a key would shadow an
/// earlier one, though well-formed stores never hold two rows for one key.
pub open spec fn store_map(s: Seq<StoreRow>) -> Map<Seq<u8>, InvoiceView>
    decreases s.len(),
{
    if s.len() == 0 {
        Map::empty()
    } else {
        store_map(s.drop_last()).insert(s.last().0, s.last().1)
    }
}

/// How many rows hold an unpaid invoice.
pub open spec fn count_unpaid(s: Seq<StoreRow>) -> nat
    decreases s.len(),
{
    if s.len() == 0 {
        0
    } else {
        count_unpaid(s.drop_last()) + if s.last().1.status is Unpaid {
            1nat
        } else {
            0nat
        }
    }
}

/// How many rows hold a paid invoice.
pub open spec fn count_paid(s: Seq<StoreRow>) -> nat
    decreases s.len(),
{
    if s.len() == 0 {
        0
    } else {
        count_paid(s.drop_last()) + if s.last().1.status is Paid {
            1nat
        } else {
            0nat
        }
    }
}

/// A key held by no row is absent from the spelled-out mapping.
pub proof fn lemma_store_map_absent(s: Seq<StoreRow>, k: Seq<u8>)
    requires
        forall|i: int| 0 <= i < s.len() ==> s[i].0 != k,
    ensures
        !store_map(s).contains_key(k),
    decreases s.len(),
{
    if s.len() > 0 {
        lemma_store_map_absent(s.drop_last(), k);
    }
}

/// With unique keys, the mapping holds each row's invoice at its key.
pub proof fn lemma_store_map_at(s: Seq<StoreRow>, i: int)
    requires
        unique_keys(s),
        0 <= i < s.len(),
    ensures
        store_map(s).contains_key(s[i].0),
        store_map(s)[s[i].0] == s[i].1,
    decreases s.len(),
{
    if i < s.len() - 1 {
        assert(unique_keys(s.drop_last()));
        lemma_store_map_at(s.drop_last(), i);
        assert(s[i].0 != s.last().0);
    }
}

/// Replacing the row of a key rewrites that key's entry in the mapping and
/// no other.
pub proof fn lemma_store_map_update(s: Seq<StoreRow>, i: int, e: StoreRow)
    requires
        unique_keys(s),
        0 <= i < s.len(),
        e.0 == s[i].0,
    ensures
        store_map(s.update(i, e)) == store_map(s).insert(e.0, e.1),
    decreases s.len(),
{
    let t = s.update(i, e);
    if i == s.len() - 1 {
        assert(t.drop_last() =~= s.drop_last());
        assert(t.last() == e);
        assert(store_map(s).insert(e.0, e.1) =~= store_map(s.drop_last()).insert(e.0, e.1));
    } else {
        assert(t.drop_last() =~= s.drop_last().update(i, e));
        assert(unique_keys(s.drop_last()));
        lemma_store_map_update(s.drop_last(), i, e);
        assert(t.last() == s.last());
        assert(e.0 != s.last().0);
        assert(store_map(s.drop_last()).insert(e.0, e.1).insert(s.last().0, s.last().1)
            =~= store_map(s.drop_last()).insert(s.last().0, s.last().1).insert(e.0, e.1));
    }
}

/// The transactional mapping from deposit account to invoice.
pub struct InvoiceStore {
    entries: Vec<(Account, Invoice)>,
}

impl View for InvoiceStore {
    type V = Seq<StoreRow>;

    closed spec fn view(&self) -> Seq<StoreRow> {
        Seq::new(self.entries@.len(), |i: int| (self.entries@[i].0@, self.entries@[i].1@))
    }
}

impl InvoiceStore {
    /// Well-formed stores hold at most one row per deposit account.
    pub open spec fn wf(&self) -> bool {
        unique_keys(self@)
    }

    /// An empty store.
    pub fn new() -> (r: InvoiceStore)
        ensures
            r.wf(),
            r@ == Seq::<StoreRow>::empty(),
            store_map(r@) == Map::<Seq<u8>, InvoiceView>::empty(),
    {
        let r = InvoiceStore { entries: Vec::new() };
        proof {
            assert(r@ =~= Seq::<StoreRow>::empty());
        }
        r
    }

    /// Reads the invoice stored under a deposit account, if any: a snapshot
    /// read, touching no state.
    pub fn get(&self, account: &Account) -> (r: Option<&Invoice>)
        requires
            self.wf(),
        ensures
            store_map(self@).contains_key(account@) ==> (r matches Some(inv) && inv@ == store_map(
                self@,
            )[account@]),
            !store_map(self@).contains_key(account@) ==> r is None,
    {
        let n = self.entries.len();
        let mut i: usize = 0;
        while i < n
            invariant
                self.wf(),
                n == self.entries@.len(),
                0 <= i <= n,
                forall|j: int| 0 <= j < i ==> self@[j].0 != account@,
            decreases n - i,
        {
            if self.entries[i].0.equals(account) {
                proof {
                    lemma_store_map_at(self@, i as int);
                }
                return Some(&self.entries[i].1);
            }
            i = i + 1;
        }
        proof {
            lemma_store_map_absent(self@, account@);
        }
        None
    }

    /// Stores an invoice under a deposit account: inserts a fresh row or
    /// overwrites the row already keyed by that account. The write is
    /// applied whole before the call returns.
    pub fn put(&mut self, account: Account, invoice: Invoice)
        requires
            old(self).wf(),
        ensures
            final(self).wf(),
            store_map(final(self)@) == store_map(old(self)@).insert(account@, invoice@),
            store_map(old(self)@).contains_key(account@) ==> final(self)@.len() == old(
                self,
            )@.len(),
            !store_map(old(self)@).contains_key(account@) ==> final(self)@ == old(self)@.push(
                (account@, invoice@),
            ),
    {
        let n = self.entries.len();
        let mut i: usize = 0;
        while i < n
            invariant
                self.wf(),
                self == old(self),
                n == self.entries@.len(),
                0 <= i <= n,
                forall|j: int| 0 <= j < i ==> self@[j].0 != account@,
            decreases n - i,
        {
            if self.entries[i].0.equals(&account) {
                proof {
                    lemma_store_map_at(self@, i as int);
                    lemma_store_map_update(self@, i as int, (account@, invoice@));
                }
                let ghost before = self@;
                self.entries[i] = (account, invoice);
                proof {
                    assert(self@ =~= before.update(i as int, (account@, invoice@)));
                    assert(unique_keys(self@));
                }
                return ;
            }
            i = i + 1;
        }
        proof {
            lemma_store_map_absent(self@, account@);
        }
        let ghost before = self@;
        self.entries.push((account, invoice));
        proof {
            assert(self@ =~= before.push((account@, invoice@)));
            assert(self@.drop_last() =~= before);
            assert(store_map(self@) =~= store_map(before).insert(account@, invoice@));
            assert(unique_keys(self@));
        }
    }

    /// How many stored invoices are unpaid and paid, recomputed from the
    /// rows on every call, never from a cache.
    pub fn status_counts(&self) -> (r: (usize, usize))
        ensures
            r.0 == count_unpaid(self@),
            r.1 == count_paid(self@),
    {
        let n = self.entries.len();
        let mut unpaid: usize = 0;
        let mut paid: usize = 0;
        let mut i: usize = 0;
        proof {
            assert(self@.subrange(0, 0) =~= Seq::<StoreRow>::empty());
        }
        while i < n
            invariant
                n == self.entries@.len(),
                0 <= i <= n,
                unpaid == count_unpaid(self@.subrange(0, i as int)),
                paid == count_paid(self@.subrange(0, i as int)),
                unpaid + paid <= i,
            decreases n - i,
        {
            let ghost pre = self@.subrange(0, i as int);
            let ghost post = self@.subrange(0, (i + 1) as int);
            proof {
                assert(post.drop_last() =~= pre);
                assert(post.last() == self@[i as int]);
            }
            match self.entries[i].1.status {
                InvoiceStatus::Unpaid { .. } => {
                    unpaid = unpaid + 1;
                },
                InvoiceStatus::Paid { .. } => {
                    paid = paid + 1;
                },
            }
            i = i + 1;
        }
        proof {
            assert(self@.subrange(0, n as int) =~= self@);
        }
        (unpaid, paid)
    }
}

} // verus!
