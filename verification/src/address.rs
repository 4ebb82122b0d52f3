//! Account and contract addresses, compared by value.

use vstd::prelude::*;

verus! {

/// Length of an account hash and of a contract package hash, in bytes.
pub const HASH_LENGTH: usize = 32;

/// An address on the chain: the hash of an account or of a contract package.
#[derive(Clone, Copy, Debug)]
pub enum Address {
    Account([u8; 32]),
    Contract([u8; 32]),
}

impl Address {
    /// Whether the address names a contract package.
    pub open spec fn spec_is_contract(self) -> bool {
        self is Contract
    }

    /// The bytes of the hash behind the address.
    pub open spec fn spec_hash(self) -> Seq<u8> {
        match self {
            Address::Account(h) => h@,
            Address::Contract(h) => h@,
        }
    }
}

/// Two hashes are the same when they agree at every position.
fn same_hash(a: &[u8; 32], b: &[u8; 32]) -> (r: bool)
    ensures
        r == (*a == *b),
{
    broadcast use vstd::array::group_array_axioms;
    let mut i: usize = 0;
    while i < HASH_LENGTH
        invariant
            0 <= i <= 32,
            forall|j: int| 0 <= j < i ==> a[j] == b[j],
        decreases 32 - i,
    {
        if a[i] != b[i] {
            return false;
        }
        i = i + 1;
    }
    assert(*a =~= *b);
    true
}

impl PartialEq for Address {
    fn eq(&self, other: &Self) -> (r: bool) {
        match (self, other) {
            (Address::Account(a), Address::Account(b)) => same_hash(a, b),
            (Address::Contract(a), Address::Contract(b)) => same_hash(a, b),
            _ => false,
        }
    }
}

impl vstd::std_specs::cmp::PartialEqSpecImpl for Address {
    open spec fn obeys_eq_spec() -> bool {
        true
    }

    open spec fn eq_spec(&self, other: &Address) -> bool {
        *self == *other
    }
}

impl Eq for Address {
}

} // verus!
