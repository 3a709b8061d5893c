//! Ledger addresses.
use vstd::prelude::*;

verus! {

/// Length of an address in its text form.
pub const ADDRESS_LEN: usize = 56;

/// The address of an account or of a contract, held as the ASCII bytes of its
/// text form (`G...` for an account, `C...` for a contract).
#[derive(Clone, Copy, Debug, PartialEq, Eq)]
pub struct Address {
    pub text: [u8; ADDRESS_LEN],
}

impl View for Address {
    type V = Address;

    open spec fn view(&self) -> Address {
        *self
    }
}

impl Address {
    /// Tells whether two addresses are the same, byte by byte.
    pub fn same(&self, other: &Address) -> (r: bool)
        ensures
            r == (*self == *other),
    {
        let mut i: usize = 0;
        while i < ADDRESS_LEN
            invariant
                i <= ADDRESS_LEN,
                forall|j: int| 0 <= j < i ==> self.text[j] == other.text[j],
            decreases ADDRESS_LEN - i,
        {
            if self.text[i] != other.text[i] {
                return false;
            }
            i = i + 1;
        }
        assert(self.text =~= other.text);
        true
    }
}

} // verus!
