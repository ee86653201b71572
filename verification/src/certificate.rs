//! A certificate, held by the address of its Core Foundation object.
use vstd::prelude::*;

verus! {

/// A certificate, held by the address of its Core Foundation object.
#[derive(Clone, Copy, Debug, PartialEq, Eq, Structural)]
pub struct SecCertificate {
    raw: usize,
}

impl View for SecCertificate {
    type V = usize;

    /// The address of the object.
    closed spec fn view(&self) -> usize {
        self.raw
    }
}

impl SecCertificate {
    /// The object at the given address.
    pub fn from_raw(raw: usize) -> (r: SecCertificate)
        ensures
            r@ == raw,
    {
        SecCertificate { raw }
    }

    /// The address of the object, as the framework takes it.
    pub fn as_raw(&self) -> (raw: usize)
        ensures
            raw == self@,
    {
        self.raw
    }
}

} // verus!
