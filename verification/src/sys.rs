//! Raw values of the SecureTransport interface: status codes and the
//! enumerations that cross the C boundary.
use core_foundation_sys::base::OSStatus;
use vstd::prelude::*;

verus! {

/// No error.
pub const errSecSuccess: OSStatus = 0;
/// I/O error.
pub const errSecIO: OSStatus = -36;
/// The provided data could not be decoded.
pub const errSecDecode: OSStatus = -26275;
/// One or more parameters passed to a function were not valid.
pub const errSecParam: OSStatus = -50;
/// Bad request.
pub const errSecBadReq: OSStatus = -909;
/// The operation would block.
pub const errSSLWouldBlock: OSStatus = -9803;
/// The connection closed gracefully.
pub const errSSLClosedGraceful: OSStatus = -9805;
/// The connection closed due to an error.
pub const errSSLClosedAbort: OSStatus = -9806;
/// The connection closed without notification.
pub const errSSLClosedNoNotify: OSStatus = -9816;
/// The peer's certificate chain was received and the handshake paused so
/// that the caller can evaluate it.
pub const errSSLPeerAuthCompleted: OSStatus = -9841;

/// Side of a connection, as the framework numbers it.
#[derive(Clone, Copy, Debug, PartialEq, Eq, Structural)]
pub enum SSLProtocolSide {
    kSSLServerSide,
    kSSLClientSide,
}

/// State of a session, as the framework reports it.
#[derive(Clone, Copy, Debug, PartialEq, Eq, Structural)]
pub enum SSLSessionState {
    kSSLIdle,
    kSSLHandshake,
    kSSLConnected,
    kSSLClosed,
    kSSLAborted,
}

/// The C value of a protocol side.
pub open spec fn spec_protocol_side_value(side: SSLProtocolSide) -> i32 {
    match side {
        SSLProtocolSide::kSSLServerSide => 0,
        SSLProtocolSide::kSSLClientSide => 1,
    }
}

/// The C value of a session state.
pub open spec fn spec_session_state_value(state: SSLSessionState) -> i32 {
    match state {
        SSLSessionState::kSSLIdle => 0,
        SSLSessionState::kSSLHandshake => 1,
        SSLSessionState::kSSLConnected => 2,
        SSLSessionState::kSSLClosed => 3,
        SSLSessionState::kSSLAborted => 4,
    }
}

impl SSLProtocolSide {
    /// The value that the C interface takes for this side.
    pub fn value(&self) -> (v: i32)
        ensures
            v == spec_protocol_side_value(*self),
    {
        match self {
            SSLProtocolSide::kSSLServerSide => 0,
            SSLProtocolSide::kSSLClientSide => 1,
        }
    }
}

impl SSLSessionState {
    /// The value that the C interface uses for this state.
    pub fn value(&self) -> (v: i32)
        ensures
            v == spec_session_state_value(*self),
    {
        match self {
            SSLSessionState::kSSLIdle => 0,
            SSLSessionState::kSSLHandshake => 1,
            SSLSessionState::kSSLConnected => 2,
            SSLSessionState::kSSLClosed => 3,
            SSLSessionState::kSSLAborted => 4,
        }
    }

    /// Reads a session state written by the C interface; `None` for a value
    /// that names no state.
    pub fn from_value(v: i32) -> (r: Option<SSLSessionState>)
        ensures
            match r {
                Some(s) => spec_session_state_value(s) == v,
                None => !(0 <= v <= 4),
            },
    {
        if v == 0 {
            Some(SSLSessionState::kSSLIdle)
        } else if v == 1 {
            Some(SSLSessionState::kSSLHandshake)
        } else if v == 2 {
            Some(SSLSessionState::kSSLConnected)
        } else if v == 3 {
            Some(SSLSessionState::kSSLClosed)
        } else if v == 4 {
            Some(SSLSessionState::kSSLAborted)
        } else {
            None
        }
    }
}

/// Reading a session state back from its C value gives the state again.
pub proof fn lemma_session_state_value_roundtrip(state: SSLSessionState, other: SSLSessionState)
    ensures
        spec_session_state_value(state) == spec_session_state_value(other) ==> state == other,
        0 <= spec_session_state_value(state) <= 4,
{
}

} // verus!
