//! Account and contract addresses as plain values.
use vstd::prelude::*;

verus! {

/// An account or contract address, as the 56 ASCII characters of its strkey
/// (`G...` or `C...`). Two addresses are the same exactly when their strkeys are.
#[derive(Clone, Copy, Debug, Eq)]
pub struct AddressKey {
    /// The characters of the strkey.
    pub strkey: [u8; 56],
}

impl vstd::std_specs::cmp::PartialEqSpecImpl for AddressKey {
    open spec fn obeys_eq_spec() -> bool {
        true
    }

    open spec fn eq_spec(&self, other: &AddressKey) -> bool {
        *self == *other
    }
}

impl PartialEq for AddressKey {
    fn eq(&self, other: &AddressKey) -> (same: bool) {
        let mut i: usize = 0;
        while i < 56
            invariant
                i <= 56,
                forall|j: int| 0 <= j < i ==> self.strkey@[j] == other.strkey@[j],
            decreases 56 - i,
        {
            if self.strkey[i] != other.strkey[i] {
                return false;
            }
            i = i + 1;
        }
        assert(self.strkey@ =~= other.strkey@);
        assert(self.strkey =~= other.strkey);
        true
    }
}

/// Returns whether `address` stands in `list`.
pub fn contains_address(list: &Vec<AddressKey>, address: AddressKey) -> (found: bool)
    ensures
        found == list@.contains(address),
{
    let mut i: usize = 0;
    while i < list.len()
        invariant
            i <= list.len(),
            forall|j: int| 0 <= j < i ==> list@[j] != address,
        decreases list.len() - i,
    {
        if list[i] == address {
            assert(list@[i as int] == address);
            return true;
        }
        i = i + 1;
    }
    false
}

} // verus!
