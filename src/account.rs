use vstd::prelude::*;

verus! {

/// Width in bytes of an account identifier.
pub const ACCOUNT_LEN: usize = 32;

/// An opaque, fixed-width account identifier assigned by the host.
#[derive(Clone, Copy, Debug, Eq, Hash)]
pub struct Account {
    pub bytes: [u8; 32],
}

impl Account {
    /// Builds the account whose identifier is `bytes`.
    pub fn new(bytes: [u8; 32]) -> (r: Account)
        ensures
            r.bytes == bytes,
    {
        Account { bytes }
    }

    /// The identifier's bytes.
    pub fn to_bytes(&self) -> (r: [u8; 32])
        ensures
            r == self.bytes,
    {
        self.bytes
    }
}

impl PartialEq for Account {
    fn eq(&self, o: &Account) -> (r: bool) {
        let mut i: usize = 0;
        while i < ACCOUNT_LEN
            invariant
                i <= ACCOUNT_LEN,
                forall|j: int| 0 <= j < i ==> self.bytes[j] == o.bytes[j],
            decreases ACCOUNT_LEN - i,
        {
            if self.bytes[i] != o.bytes[i] {
                return false;
            }
            i = i + 1;
        }
        proof {
            assert(self.bytes =~= o.bytes);
        }
        true
    }
}

impl vstd::std_specs::cmp::PartialEqSpecImpl for Account {
    open spec fn obeys_eq_spec() -> bool {
        true
    }

    open spec fn eq_spec(&self, o: &Account) -> bool {
        self == o
    }
}

} // verus!
