//! Access control settings for keychain items.
use vstd::prelude::*;
use crate::base::Error;
use crate::sys::errSecParam;

verus! {

/// Access control settings, held by the address of the framework's object.
#[derive(Debug)]
pub struct SecAccessControl {
    raw: usize,
}

impl View for SecAccessControl {
    type V = usize;

    /// The address of the framework's object.
    closed spec fn view(&self) -> usize {
        self.raw
    }
}

impl SecAccessControl {
    /// The settings that creation from flags produced, given the address
    /// that the framework returned: none at address 0, which the framework
    /// returns when the flags are not acceptable, and which is reported as
    /// a bad parameter.
    pub fn from_created(raw: usize) -> (r: Result<SecAccessControl, Error>)
        ensures
            r is Ok <==> raw != 0,
            r matches Ok(a) ==> a@ == raw,
            r matches Err(e) ==> e@ == errSecParam,
    {
        if raw == 0 {
            Err(Error::from_code(errSecParam))
        } else {
            Ok(SecAccessControl { raw })
        }
    }

    /// The address of the framework's object.
    pub fn as_raw(&self) -> (raw: usize)
        ensures
            raw == self@,
    {
        self.raw
    }
}

} // verus!
