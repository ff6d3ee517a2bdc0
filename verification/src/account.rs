use vstd::prelude::*;

verus! {

/// A 32-byte account identifier, as used by the contracts' environment.
#[derive(Clone, Copy, Debug, PartialEq, Eq, Hash)]
pub struct AccountId(pub [u8; 32]);

impl From<[u8; 32]> for AccountId {
    fn from(bytes: [u8; 32]) -> (r: AccountId) {
        AccountId(bytes)
    }
}

impl vstd::std_specs::convert::FromSpecImpl<[u8; 32]> for AccountId {
    open spec fn obeys_from_spec() -> bool {
        true
    }

    open spec fn from_spec(bytes: [u8; 32]) -> AccountId {
        AccountId(bytes)
    }
}

impl AccountId {
    /// The account made of 32 zero bytes.
    pub fn zero() -> (r: AccountId)
        ensures
            forall|i: int| 0 <= i < 32 ==> r.0[i] == 0u8,
    {
        AccountId([0u8; 32])
    }
}

/// Keys of a [`crate::storage::StorageMap`]: values that can be compared at run time
/// exactly as they compare in specifications.
pub trait StorageKey: Sized {
    fn same_key(&self, other: &Self) -> (b: bool)
        ensures
            b == (*self == *other),
    ;
}

impl StorageKey for u64 {
    fn same_key(&self, other: &Self) -> (b: bool) {
        *self == *other
    }
}

impl StorageKey for AccountId {
    fn same_key(&self, other: &Self) -> (b: bool) {
        let mut i: usize = 0;
        while i < 32
            invariant
                i <= 32,
                forall|j: int| 0 <= j < i ==> self.0[j] == other.0[j],
            decreases 32 - i,
        {
            if self.0[i] != other.0[i] {
                return false;
            }
            i = i + 1;
        }
        proof {
            broadcast use vstd::array::group_array_axioms;

            assert(self.0 =~= other.0);
        }
        true
    }
}

impl StorageKey for (u64, AccountId) {
    fn same_key(&self, other: &Self) -> (b: bool) {
        self.0 == other.0 && self.1.same_key(&other.1)
    }
}

} // verus!
