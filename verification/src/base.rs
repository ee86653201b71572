//! The error type of the library and the conversion of a status code into
//! a result.
use core_foundation_sys::base::OSStatus;
use vstd::prelude::*;
use crate::sys::errSecSuccess;

verus! {

/// An error reported by the Security framework, identified by its status
/// code.
#[derive(Clone, Copy, Debug, PartialEq, Eq, Structural)]
pub struct Error {
    code: OSStatus,
}

impl View for Error {
    type V = OSStatus;

    /// The status code that the error carries.
    closed spec fn view(&self) -> OSStatus {
        self.code
    }
}

impl Error {
    /// An error with the given status code.
    pub fn new(code: OSStatus) -> (e: Error)
        ensures
            e@ == code,
    {
        Error { code }
    }

    /// An error with the given status code.
    pub fn from_code(code: OSStatus) -> (e: Error)
        ensures
            e@ == code,
    {
        Error::new(code)
    }

    /// The status code that this error carries.
    pub fn code(&self) -> (c: OSStatus)
        ensures
            c == self@,
    {
        self.code
    }
}

/// Turns a status code into a result.
pub fn cvt(status: OSStatus) -> (r: Result<(), Error>)
    ensures
        r is Ok <==> status == errSecSuccess,
        r matches Err(e) ==> e@ == status,
{
    if status == errSecSuccess {
        Ok(())
    } else {
        Err(Error::new(status))
    }
}

} // verus!
