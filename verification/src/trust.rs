//! A trust evaluation object, held by the address of its Core Foundation object.
use vstd::prelude::*;

verus! {

/// A trust evaluation object, held by the address of its Core Foundation object.
#[derive(Clone, Copy, Debug, PartialEq, Eq, Structural)]
pub struct SecTrust {
    raw: usize,
}

impl View for SecTrust {
    type V = usize;

    /// The address of the object.
    closed spec fn view(&self) -> usize {
        self.raw
    }
}

impl SecTrust {
    /// The object at the given address.
    pub fn from_raw(raw: usize) -> (r: SecTrust)
        ensures
            r@ == raw,
    {
        SecTrust { raw }
    }

    /// The address of the object, as the framework takes it.
    pub fn as_raw(&self) -> (raw: usize)
        ensures
            raw == self@,
    {
        self.raw
    }
}

} // verus!
