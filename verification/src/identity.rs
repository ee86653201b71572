//! An identity: a certificate together with its private key, held by the address of its Core Foundation object.
use vstd::prelude::*;

verus! {

/// An identity: a certificate together with its private key, held by the address of its Core Foundation object.
#[derive(Clone, Copy, Debug, PartialEq, Eq, Structural)]
pub struct SecIdentity {
    raw: usize,
}

impl View for SecIdentity {
    type V = usize;

    /// The address of the object.
    closed spec fn view(&self) -> usize {
        self.raw
    }
}

impl SecIdentity {
    /// The object at the given address.
    pub fn from_raw(raw: usize) -> (r: SecIdentity)
        ensures
            r@ == raw,
    {
        SecIdentity { raw }
    }

    /// The address of the object, as the framework takes it.
    pub fn as_raw(&self) -> (raw: usize)
        ensures
            raw == self@,
    {
        self.raw
    }
}

} // verus!
