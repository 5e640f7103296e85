//! Account identifiers.

use vstd::prelude::*;

verus! {

/// A fixed-width account identifier. The identifier whose bytes are all zero
/// stands for "no account": it never owns a token and is never accepted as the
/// destination of a transfer or as a delegate.
#[derive(Clone, Copy, Debug, Eq, Hash)]
pub struct AccountId(pub [u8; 32]);

/// The account that stands for "no account": each of its bytes is zero.
pub open spec fn null_account() -> AccountId {
    AccountId(vstd::array::spec_array_fill_for_copy_type::<u8, 32>(0u8))
}

impl PartialEq for AccountId {
    /// Two identifiers are equal when they agree on each byte.
    fn eq(&self, other: &Self) -> (r: bool) {
        let mut i: usize = 0;
        while i < 32
            invariant
                i <= 32,
                forall|j: int| 0 <= j < i ==> self.0[j] == other.0[j],
            decreases 32 - i,
        {
            if self.0[i] != other.0[i] {
                return false;
            }
            i += 1;
        }
        assert(self.0 =~= other.0);
        true
    }
}

impl vstd::std_specs::cmp::PartialEqSpecImpl for AccountId {
    open spec fn obeys_eq_spec() -> bool {
        true
    }

    open spec fn eq_spec(&self, other: &Self) -> bool {
        *self == *other
    }
}

impl From<[u8; 32]> for AccountId {
    /// The account with the given bytes.
    fn from(bytes: [u8; 32]) -> (a: AccountId) {
        AccountId(bytes)
    }
}

impl vstd::std_specs::convert::FromSpecImpl<[u8; 32]> for AccountId {
    open spec fn obeys_from_spec() -> bool {
        true
    }

    open spec fn from_spec(bytes: [u8; 32]) -> AccountId {
        AccountId(bytes)
    }
}

impl AccountId {
    /// The account that stands for "no account".
    pub fn null() -> (a: AccountId)
        ensures
            a == null_account(),
    {
        AccountId([0u8; 32])
    }

    /// Whether this is the account that stands for "no account".
    pub fn is_null(&self) -> (r: bool)
        ensures
            r == (*self == null_account()),
    {
        *self == AccountId::null()
    }
}

} // verus!
