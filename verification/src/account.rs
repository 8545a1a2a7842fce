//! Fixed-size account identifiers and the master key.

use vstd::prelude::*;

verus! {

/// Number of bytes in a public-key account identifier.
pub const ACCOUNT_LEN: usize = 32;

/// A fixed-size (32-byte) public-key identifier. It serves two roles:
/// a *recipient* account supplied by the merchant, and a *deposit* account
/// derived per invoice. Equality is byte equality.
#[derive(Debug)]
pub struct Account {
    bytes: Vec<u8>,
}

impl View for Account {
    type V = Seq<u8>;

    closed spec fn view(&self) -> Seq<u8> {
        self.bytes@
    }
}

impl Account {
    /// Well-formed accounts hold exactly `ACCOUNT_LEN` bytes.
    pub open spec fn wf(&self) -> bool {
        self@.len() == ACCOUNT_LEN
    }

    /// Builds an account from raw bytes; rejects any length but `ACCOUNT_LEN`.
    pub fn from_bytes(bytes: Vec<u8>) -> (r: Option<Account>)
        ensures
            bytes@.len() == ACCOUNT_LEN ==> (r matches Some(a) && a@ == bytes@ && a.wf()),
            bytes@.len() != ACCOUNT_LEN ==> r is None,
    {
        if bytes.len() == ACCOUNT_LEN {
            Some(Account { bytes })
        } else {
            None
        }
    }

    /// The raw bytes of the account.
    pub fn as_bytes(&self) -> (r: &Vec<u8>)
        ensures
            r@ == self@,
    {
        &self.bytes
    }

    /// An independent copy with the same bytes.
    pub fn duplicate(&self) -> (r: Account)
        ensures
            r@ == self@,
            r.wf() == self.wf(),
    {
        let bytes = self.bytes.clone();
        proof {
            assert(bytes@ =~= self.bytes@);
        }
        Account { bytes }
    }

    /// Byte equality of two accounts.
    pub fn equals(&self, other: &Account) -> (r: bool)
        ensures
            r == (self@ == other@),
    {
        if self.bytes.len() != other.bytes.len() {
            proof {
                assert(self@.len() != other@.len());
            }
            return false;
        }
        let n = self.bytes.len();
        let mut i: usize = 0;
        while i < n
            invariant
                n == self@.len(),
                n == other@.len(),
                0 <= i <= n,
                forall|j: int| 0 <= j < i ==> self@[j] == other@[j],
            decreases n - i,
        {
            if self.bytes[i] != other.bytes[i] {
                return false;
            }
            i = i + 1;
        }
        proof {
            assert(self@ =~= other@);
        }
        true
    }
}

/// The master keypair seed. Derivation mixes it into every deposit account;
/// it is never exposed outside the deriver, and no method returns its bytes.
pub struct MasterKey {
    seed: Vec<u8>,
}

impl View for MasterKey {
    type V = Seq<u8>;

    closed spec fn view(&self) -> Seq<u8> {
        self.seed@
    }
}

impl MasterKey {
    /// Well-formed master keys hold exactly `ACCOUNT_LEN` seed bytes.
    pub open spec fn wf(&self) -> bool {
        self@.len() == ACCOUNT_LEN
    }

    /// Builds a master key from a raw seed; rejects any length but `ACCOUNT_LEN`.
    pub fn from_seed(seed: Vec<u8>) -> (r: Option<MasterKey>)
        ensures
            seed@.len() == ACCOUNT_LEN ==> (r matches Some(k) && k@ == seed@ && k.wf()),
            seed@.len() != ACCOUNT_LEN ==> r is None,
    {
        if seed.len() == ACCOUNT_LEN {
            Some(MasterKey { seed })
        } else {
            None
        }
    }

    /// The seed bytes, visible to the deriver alone.
    pub(crate) fn seed_bytes(&self) -> (r: &Vec<u8>)
        ensures
            r@ == self@,
    {
        &self.seed
    }
}

} // verus!
