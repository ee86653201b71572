//! Keychains, held by the address of their Core Foundation object.
use vstd::prelude::*;

verus! {

/// A keychain, held by the address of its Core Foundation object.
#[derive(Clone, Copy, Debug, PartialEq, Eq, Structural)]
pub struct SecKeychain {
    raw: usize,
}

impl View for SecKeychain {
    type V = usize;

    /// The address of the object.
    closed spec fn view(&self) -> usize {
        self.raw
    }
}

impl SecKeychain {
    /// The keychain at the given address.
    pub fn from_raw(raw: usize) -> (k: SecKeychain)
        ensures
            k@ == raw,
    {
        SecKeychain { raw }
    }

    /// The address of the object, as the framework takes it.
    pub fn as_raw(&self) -> (raw: usize)
        ensures
            raw == self@,
    {
        self.raw
    }
}

} // verus!
