//! SecureTransport: TLS sessions over a caller-supplied stream.
//!
//! The framework keeps the session and calls back into the library to move
//! bytes over the stream. Each call into the framework ends in a status
//! code; what the session does with that code is decided here: which
//! result a caller sees, which state a session moves to, and what the
//! callbacks report to the framework.
use core_foundation_sys::base::{Boolean, OSStatus};
use vstd::prelude::*;
use crate::base::{cvt, Error};
use crate::certificate::SecCertificate;
use crate::cipher_suite::CipherSuite;
use crate::identity::SecIdentity;
use crate::sys::{
    errSSLClosedAbort, errSSLClosedGraceful, errSSLClosedNoNotify, errSSLPeerAuthCompleted,
    errSSLWouldBlock, errSecBadReq, errSecDecode, errSecIO, errSecSuccess,
    spec_protocol_side_value, spec_session_state_value, SSLProtocolSide, SSLSessionState,
};
use crate::trust::SecTrust;

verus! {

/// An error of the caller's stream; the library keeps it opaque and hands
/// it back unchanged.
#[verifier::external_type_specification]
#[verifier::external_body]
pub struct ExIoError(std::io::Error);

/// Which end of a connection a context is for.
#[derive(Clone, Copy, Debug, PartialEq, Eq, Structural)]
pub enum ProtocolSide {
    Server,
    Client,
}

/// The framework's value for a side.
pub open spec fn spec_side_to_raw(side: ProtocolSide) -> SSLProtocolSide {
    match side {
        ProtocolSide::Server => SSLProtocolSide::kSSLServerSide,
        ProtocolSide::Client => SSLProtocolSide::kSSLClientSide,
    }
}

impl ProtocolSide {
    /// The framework's value for this side.
    pub fn to_raw(&self) -> (r: SSLProtocolSide)
        ensures
            r == spec_side_to_raw(*self),
    {
        match self {
            ProtocolSide::Server => SSLProtocolSide::kSSLServerSide,
            ProtocolSide::Client => SSLProtocolSide::kSSLClientSide,
        }
    }

    /// The flag that the older context constructor takes: 1 for a server,
    /// 0 for a client.
    pub fn is_server_flag(&self) -> (b: Boolean)
        ensures
            b == (if *self == ProtocolSide::Server { 1u8 } else { 0u8 }),
    {
        match self {
            ProtocolSide::Server => 1,
            ProtocolSide::Client => 0,
        }
    }
}

/// The state of a session.
#[derive(Clone, Copy, Debug, PartialEq, Eq, Structural)]
pub enum SessionState {
    Idle,
    Handshake,
    Connected,
    Closed,
    Aborted,
}

/// The session state that a framework value stands for.
pub open spec fn spec_state_from_raw(raw: SSLSessionState) -> SessionState {
    match raw {
        SSLSessionState::kSSLIdle => SessionState::Idle,
        SSLSessionState::kSSLHandshake => SessionState::Handshake,
        SSLSessionState::kSSLConnected => SessionState::Connected,
        SSLSessionState::kSSLClosed => SessionState::Closed,
        SSLSessionState::kSSLAborted => SessionState::Aborted,
    }
}

impl SessionState {
    /// The session state that a framework value stands for.
    pub fn from_raw(raw: SSLSessionState) -> (s: SessionState)
        ensures
            s == spec_state_from_raw(raw),
    {
        match raw {
            SSLSessionState::kSSLIdle => SessionState::Idle,
            SSLSessionState::kSSLHandshake => SessionState::Handshake,
            SSLSessionState::kSSLConnected => SessionState::Connected,
            SSLSessionState::kSSLClosed => SessionState::Closed,
            SSLSessionState::kSSLAborted => SessionState::Aborted,
        }
    }
}

/// Each framework state is read as the session state of the same name, and
/// the framework's C value for it is its position in the order idle,
/// handshake, connected, closed, aborted; distinct values give distinct
/// states.
pub proof fn lemma_state_decoding(raw: SSLSessionState, other: SSLSessionState)
    ensures
        spec_state_from_raw(raw) == SessionState::Idle <==> spec_session_state_value(raw) == 0,
        spec_state_from_raw(raw) == SessionState::Handshake <==> spec_session_state_value(raw)
            == 1,
        spec_state_from_raw(raw) == SessionState::Connected <==> spec_session_state_value(raw)
            == 2,
        spec_state_from_raw(raw) == SessionState::Closed <==> spec_session_state_value(raw) == 3,
        spec_state_from_raw(raw) == SessionState::Aborted <==> spec_session_state_value(raw)
            == 4,
        spec_state_from_raw(raw) == spec_state_from_raw(other) ==> raw == other,
{
}

/// A server is the framework's server side and a client its client side,
/// with C values 0 and 1, the older constructor's server flag.
pub proof fn lemma_side_encoding(side: ProtocolSide)
    ensures
        side == ProtocolSide::Server <==> spec_side_to_raw(side)
            == SSLProtocolSide::kSSLServerSide,
        side == ProtocolSide::Client <==> spec_side_to_raw(side)
            == SSLProtocolSide::kSSLClientSide,
        spec_protocol_side_value(spec_side_to_raw(side)) == (if side == ProtocolSide::Server {
            0i32
        } else {
            1i32
        }),
{
}

/// A TLS session context of the framework, held by its address.
pub struct SslContext {
    raw: usize,
}

impl View for SslContext {
    type V = usize;

    /// The address of the framework's context.
    closed spec fn view(&self) -> usize {
        self.raw
    }
}

impl SslContext {
    /// Takes hold of a context that the framework created.
    pub fn wrap(raw: usize) -> (c: SslContext)
        ensures
            c@ == raw,
    {
        SslContext { raw }
    }

    /// The context that the older constructor produced: `status` is what it
    /// returned and `raw` the context it filled in.
    pub fn from_new_context(status: OSStatus, raw: usize) -> (r: Result<SslContext, Error>)
        ensures
            r is Ok <==> status == errSecSuccess,
            r matches Ok(c) ==> c@ == raw,
            r matches Err(e) ==> e@ == status,
    {
        match cvt(status) {
            Ok(()) => Ok(SslContext { raw }),
            Err(e) => Err(e),
        }
    }

    /// The address of the framework's context.
    pub fn as_raw(&self) -> (raw: usize)
        ensures
            raw == self@,
    {
        self.raw
    }

    /// The session state, given the status of the query and the value it
    /// filled in. A value that names no state cannot be decoded and is
    /// reported as `errSecDecode`.
    pub fn state_from(status: OSStatus, value: i32) -> (r: Result<SessionState, Error>)
        ensures
            r is Ok <==> status == errSecSuccess && 0 <= value <= 4,
            r matches Ok(s) ==> exists|raw: SSLSessionState|
                spec_session_state_value(raw) == value && s == spec_state_from_raw(raw),
            r matches Err(e) ==> e@ == (if status != errSecSuccess {
                status
            } else {
                errSecDecode
            }),
    {
        match cvt(status) {
            Ok(()) => match SSLSessionState::from_value(value) {
                Some(raw) => Ok(SessionState::from_raw(raw)),
                None => Err(Error::new(errSecDecode)),
            },
            Err(e) => Err(e),
        }
    }

    /// Whether the peer's trust may be asked for, given the session's state:
    /// an idle session has no peer, and the request is refused as a bad one.
    pub fn peer_trust_allowed(state: Result<SessionState, Error>) -> (r: Result<(), Error>)
        ensures
            state matches Err(e) ==> r == Err::<(), Error>(e),
            state == Ok::<SessionState, Error>(SessionState::Idle) ==> (r matches Err(e) && e@
                == errSecBadReq),
            state matches Ok(s) && s != SessionState::Idle ==> r is Ok,
    {
        match state {
            Err(e) => Err(e),
            Ok(SessionState::Idle) => cvt(errSecBadReq),
            Ok(_) => Ok(()),
        }
    }

    /// The peer's trust, given the status of the copy and the object it
    /// filled in.
    pub fn peer_trust_from(status: OSStatus, raw: usize) -> (r: Result<SecTrust, Error>)
        ensures
            r is Ok <==> status == errSecSuccess,
            r matches Ok(t) ==> t@ == raw,
            r matches Err(e) ==> e@ == status,
    {
        match cvt(status) {
            Ok(()) => Ok(SecTrust::from_raw(raw)),
            Err(e) => Err(e),
        }
    }

    /// The negotiated suite, given the status of the query and the number it
    /// filled in.
    pub fn negotiated_cipher_from(status: OSStatus, raw: u32) -> (r: Result<CipherSuite, Error>)
        ensures
            r is Ok <==> status == errSecSuccess,
            r matches Ok(c) ==> c@ == raw,
            r matches Err(e) ==> e@ == status,
    {
        match cvt(status) {
            Ok(()) => Ok(CipherSuite::from_raw(raw)),
            Err(e) => Err(e),
        }
    }

    /// The objects that make up the certificate setting, in the order the
    /// framework wants them: the identity first, then the certificates.
    pub fn certificate_chain(identity: &SecIdentity, certs: &[SecCertificate]) -> (chain: Vec<
        usize,
    >)
        ensures
            chain@ == seq![identity@] + certs@.map_values(|c: SecCertificate| c@),
    {
        let mut chain: Vec<usize> = Vec::new();
        chain.push(identity.as_raw());
        let mut i: usize = 0;
        while i < certs.len()
            invariant
                i <= certs.len(),
                chain@.len() == i + 1,
                chain@[0] == identity@,
                forall|j: int| 0 <= j < i ==> #[trigger] chain@[j + 1] == certs@[j]@,
            decreases certs.len() - i,
        {
            chain.push(certs[i].as_raw());
            i = i + 1;
        }
        let ghost expected = seq![identity@] + certs@.map_values(|c: SecCertificate| c@);
        assert forall|j: int| 1 <= j < chain@.len() implies chain@[j] == expected[j] by {
            assert(chain@[(j - 1) + 1] == certs@[j - 1]@);
        }
        assert(chain@ =~= expected);
        chain
    }
}


/// The kind of a failed read or write on the caller's stream, as far as the
/// framework needs to know it.
#[derive(Clone, Copy, Debug, PartialEq, Eq, Structural)]
pub enum IoErrorKind {
    /// The stream has no more data: the peer closed it.
    NotFound,
    /// The peer reset the connection.
    ConnectionReset,
    /// The operation would block.
    WouldBlock,
    /// Any other failure.
    Other,
}

/// The status that the framework is told for a failure of the stream.
pub open spec fn spec_translate_err(kind: IoErrorKind) -> OSStatus {
    match kind {
        IoErrorKind::NotFound => errSSLClosedGraceful,
        IoErrorKind::ConnectionReset => errSSLClosedAbort,
        IoErrorKind::WouldBlock => errSSLWouldBlock,
        IoErrorKind::Other => errSecIO,
    }
}

/// The status that the framework is told for a failure of the stream.
pub fn translate_err(kind: IoErrorKind) -> (status: OSStatus)
    ensures
        status == spec_translate_err(kind),
        status != errSecSuccess,
{
    match kind {
        IoErrorKind::NotFound => errSSLClosedGraceful,
        IoErrorKind::ConnectionReset => errSSLClosedAbort,
        IoErrorKind::WouldBlock => errSSLWouldBlock,
        IoErrorKind::Other => errSecIO,
    }
}

/// What a transfer asks for next.
#[derive(Clone, Copy, Debug, PartialEq, Eq, Structural)]
pub enum TransferStep {
    /// Move more bytes, starting at this offset of the buffer.
    Continue(usize),
    /// Stop: report this many bytes moved and this status to the framework.
    Finish(usize, OSStatus),
}

/// A callback's transfer of a buffer that the framework handed over: bytes
/// move from the offset reached so far until the buffer is full or the
/// stream stops.
#[derive(Clone, Copy, Debug)]
pub struct Transfer {
    len: usize,
    done: usize,
    stop: Option<OSStatus>,
}

impl Transfer {
    /// The length of the buffer.
    pub closed spec fn spec_len(&self) -> usize {
        self.len
    }

    /// The bytes moved so far.
    pub closed spec fn spec_done(&self) -> usize {
        self.done
    }

    /// The status the stream stopped with, if it stopped.
    pub closed spec fn spec_stop(&self) -> Option<OSStatus> {
        self.stop
    }

    /// A transfer stops only with a failure status.
    pub open spec fn inv(&self) -> bool {
        self.spec_stop() matches Some(s) ==> s != errSecSuccess
    }

    /// The transfer has not moved more bytes than the buffer holds, as long
    /// as the stream never claims more than the room it was given.
    pub open spec fn within_buffer(&self) -> bool {
        self.spec_done() <= self.spec_len()
    }

    /// What remains to be done: the bytes still to move, and one more step
    /// while the transfer has not stopped.
    pub open spec fn measure(&self) -> int {
        (if self.spec_done() < self.spec_len() {
            self.spec_len() - self.spec_done()
        } else {
            0int
        }) + if self.spec_stop() is None {
            1int
        } else {
            0int
        }
    }

    /// What the transfer asks for next.
    pub open spec fn spec_next(&self) -> TransferStep {
        match self.spec_stop() {
            Some(s) => TransferStep::Finish(self.spec_done(), s),
            None => if self.spec_done() < self.spec_len() {
                TransferStep::Continue(self.spec_done())
            } else {
                TransferStep::Finish(self.spec_done(), errSecSuccess)
            },
        }
    }

    /// A transfer of a buffer of `len` bytes, none moved yet.
    pub fn new(len: usize) -> (t: Transfer)
        ensures
            t.inv(),
            t.within_buffer(),
            t.spec_len() == len,
            t.spec_done() == 0,
            t.spec_stop() is None,
    {
        Transfer { len, done: 0, stop: None }
    }

    /// What the transfer asks for next.
    pub fn next(&self) -> (step: TransferStep)
        requires
            self.inv(),
        ensures
            step == self.spec_next(),
            self.spec_stop() is None && self.spec_done() < self.spec_len() ==> step
                == TransferStep::Continue(self.spec_done()),
            self.spec_stop() is None && self.spec_done() >= self.spec_len() ==> step
                == TransferStep::Finish(self.spec_done(), errSecSuccess),
            self.spec_stop() matches Some(s) ==> step == TransferStep::Finish(
                self.spec_done(),
                s,
            ),
    {
        match self.stop {
            Some(s) => TransferStep::Finish(self.done, s),
            None => if self.done < self.len {
                TransferStep::Continue(self.done)
            } else {
                TransferStep::Finish(self.done, errSecSuccess)
            },
        }
    }

    /// Records that the read or write that `next` asked for moved `n`
    /// bytes. A stream that moves nothing has closed without notice. The
    /// count is added as the stream reported it, even past the end of the
    /// buffer, which ends the transfer.
    pub fn advance(&mut self, n: usize)
        requires
            old(self).inv(),
            old(self).spec_next() is Continue,
            old(self).spec_done() + n <= usize::MAX,
        ensures
            final(self).inv(),
            final(self).spec_len() == old(self).spec_len(),
            final(self).measure() < old(self).measure(),
            n <= old(self).spec_len() - old(self).spec_done() ==> final(self).within_buffer(),
            if n == 0 {
                &&& final(self).spec_done() == old(self).spec_done()
                &&& final(self).spec_stop() == Some(errSSLClosedNoNotify)
            } else {
                &&& final(self).spec_done() == old(self).spec_done() + n
                &&& final(self).spec_stop() is None
            },
    {
        if n == 0 {
            self.stop = Some(errSSLClosedNoNotify);
        } else {
            self.done = self.done + n;
        }
    }

    /// Records that the read or write that `next` asked for failed with
    /// `e`, of kind `kind`: the transfer stops with the status for the kind,
    /// and the connection keeps the failure for the session to report.
    pub fn fail<S>(&mut self, conn: &mut Connection<S>, e: std::io::Error, kind: IoErrorKind)
        requires
            old(self).inv(),
            old(self).spec_next() is Continue,
        ensures
            final(self).inv(),
            final(self).spec_len() == old(self).spec_len(),
            final(self).measure() < old(self).measure(),
            final(self).spec_done() == old(self).spec_done(),
            final(self).spec_stop() == Some(spec_translate_err(kind)),
            final(conn).spec_stream() == old(conn).spec_stream(),
            final(conn).spec_err() == Some(e),
    {
        self.stop = Some(translate_err(kind));
        conn.record_error(e);
    }
}

/// The step a transfer asks for, from its state: while the stream has not
/// stopped and fewer bytes than the buffer holds have moved, the next read
/// or write starts exactly at the bytes moved so far; once the buffer is
/// covered it finishes with success; once the stream stopped it finishes
/// with the status it stopped with. A finish always reports the bytes moved
/// so far, and a transfer finishes only when the stream stopped or the
/// buffer is covered.
pub proof fn lemma_transfer_step(t: Transfer)
    requires
        t.inv(),
    ensures
        t.spec_stop() is None && t.spec_done() < t.spec_len() ==> t.spec_next()
            == TransferStep::Continue(t.spec_done()),
        t.spec_stop() is None && t.spec_done() >= t.spec_len() ==> t.spec_next()
            == TransferStep::Finish(t.spec_done(), errSecSuccess),
        t.spec_stop() matches Some(s) ==> t.spec_next() == TransferStep::Finish(t.spec_done(), s),
        t.spec_next() matches TransferStep::Finish(n, _) ==> {
            &&& n == t.spec_done()
            &&& (t.spec_stop() is Some || t.spec_done() >= t.spec_len())
        },
        t.spec_next() matches TransferStep::Continue(off) ==> off == t.spec_done(),
{
}

/// After a failure of kind `kind` in the middle of a transfer, the transfer
/// finishes, reporting the bytes moved before the failure and the status
/// for the kind.
pub proof fn lemma_transfer_failure_report(before: Transfer, after: Transfer, kind: IoErrorKind)
    requires
        before.inv(),
        after.inv(),
        after.spec_done() == before.spec_done(),
        after.spec_stop() == Some(spec_translate_err(kind)),
    ensures
        after.spec_next() == TransferStep::Finish(before.spec_done(), spec_translate_err(kind)),
        kind == IoErrorKind::NotFound ==> after.spec_next() == TransferStep::Finish(
            before.spec_done(),
            errSSLClosedGraceful,
        ),
        kind == IoErrorKind::ConnectionReset ==> after.spec_next() == TransferStep::Finish(
            before.spec_done(),
            errSSLClosedAbort,
        ),
        kind == IoErrorKind::WouldBlock ==> after.spec_next() == TransferStep::Finish(
            before.spec_done(),
            errSSLWouldBlock,
        ),
        kind == IoErrorKind::Other ==> after.spec_next() == TransferStep::Finish(
            before.spec_done(),
            errSecIO,
        ),
{
}

/// After the stream moved `n` bytes, with `n` more than nothing and within
/// the room it was given, a transfer that had not stopped asks to continue
/// exactly at the new count while room remains, and finishes with success
/// reporting the whole buffer once it is full.
pub proof fn lemma_transfer_advance_report(before: Transfer, after: Transfer, n: usize)
    requires
        before.inv(),
        after.inv(),
        before.spec_stop() is None,
        0 < n <= before.spec_len() - before.spec_done(),
        after.spec_len() == before.spec_len(),
        after.spec_done() == before.spec_done() + n,
        after.spec_stop() is None,
    ensures
        before.spec_done() + n < before.spec_len() ==> after.spec_next() == TransferStep::Continue(
            (before.spec_done() + n) as usize,
        ),
        before.spec_done() + n == before.spec_len() ==> after.spec_next() == TransferStep::Finish(
            before.spec_len(),
            errSecSuccess,
        ),
{
}

/// A transfer reports success to the framework exactly when the stream
/// did not stop and the whole buffer was covered; while the stream keeps
/// to the room it is given, it reports exactly the buffer's length on
/// success and never more than the buffer holds. It asks for more only
/// while its measure, which every step lowers, is at least 2, so it
/// finishes after at most the buffer's length plus one steps.
pub proof fn lemma_transfer_finish(t: Transfer)
    requires
        t.inv(),
    ensures
        t.measure() >= 0,
        t.spec_next() is Continue ==> t.measure() >= 2,
        t.spec_next() matches TransferStep::Finish(n, s) ==> {
            &&& (s == errSecSuccess <==> (n >= t.spec_len() && t.spec_stop() is None))
            &&& t.within_buffer() ==> n <= t.spec_len()
            &&& t.within_buffer() ==> (s == errSecSuccess ==> n == t.spec_len())
        },
        t.spec_next() matches TransferStep::Continue(off) ==> off < t.spec_len(),
{
}

/// The caller's stream as the framework's callbacks see it, with the last
/// failure of the stream kept until the session reports it.
pub struct Connection<S> {
    stream: S,
    err: Option<std::io::Error>,
}

impl<S> Connection<S> {
    /// The stream.
    pub closed spec fn spec_stream(&self) -> S {
        self.stream
    }

    /// The failure of the stream that has not been reported yet.
    pub closed spec fn spec_err(&self) -> Option<std::io::Error> {
        self.err
    }

    /// A connection over `stream`, with no failure kept.
    pub fn new(stream: S) -> (c: Connection<S>)
        ensures
            c.spec_stream() == stream,
            c.spec_err() is None,
    {
        Connection { stream, err: None }
    }

    /// The stream, for a callback to read from or write to.
    pub fn stream_mut(&mut self) -> (s: &mut S)
        ensures
            *s == old(self).spec_stream(),
            final(self).spec_stream() == *final(s),
            final(self).spec_err() == old(self).spec_err(),
    {
        &mut self.stream
    }

    /// Keeps a failure of the stream for the session to report, in place of
    /// any kept before.
    pub fn record_error(&mut self, e: std::io::Error)
        ensures
            final(self).spec_stream() == old(self).spec_stream(),
            final(self).spec_err() == Some(e),
    {
        self.err = Some(e);
    }
}

/// A failure of a read or write on a session: the stream's own failure,
/// where the stream failed, else the framework's status.
#[derive(Debug)]
pub enum StreamFailure {
    Io(std::io::Error),
    Status(Error),
}

/// The failure reported for a status, given the failure that the connection
/// kept.
pub open spec fn spec_failure_matches(
    kept: Option<std::io::Error>,
    ret: OSStatus,
    f: StreamFailure,
) -> bool {
    match kept {
        Some(e) => f == StreamFailure::Io(e),
        None => f matches StreamFailure::Status(err) && err@ == ret,
    }
}

/// A session that has finished its handshake, over the caller's stream.
pub struct SslStream<S> {
    ctx: SslContext,
    conn: Box<Connection<S>>,
}

impl<S> SslStream<S> {
    /// The session's context.
    pub closed spec fn spec_context(&self) -> usize {
        self.ctx@
    }

    /// The stream underneath.
    pub closed spec fn spec_stream(&self) -> S {
        self.conn.stream
    }

    /// The stream's failure that has not been reported yet.
    pub closed spec fn spec_err(&self) -> Option<std::io::Error> {
        self.conn.err
    }

    /// The stream underneath.
    pub fn get_ref(&self) -> (s: &S)
        ensures
            *s == self.spec_stream(),
    {
        &self.connection().stream
    }

    /// The stream underneath, to be changed.
    pub fn get_mut(&mut self) -> (s: &mut S)
        ensures
            *s == old(self).spec_stream(),
            final(self).spec_stream() == *final(s),
            final(self).spec_context() == old(self).spec_context(),
            final(self).spec_err() == old(self).spec_err(),
    {
        &mut self.connection_mut().stream
    }

    /// The session's context.
    pub fn context(&self) -> (c: &SslContext)
        ensures
            c@ == self.spec_context(),
    {
        &self.ctx
    }

    fn connection(&self) -> (c: &Connection<S>)
        ensures
            c.spec_stream() == self.spec_stream(),
            c.spec_err() == self.spec_err(),
    {
        &self.conn
    }

    fn connection_mut(&mut self) -> (c: &mut Connection<S>)
        ensures
            *c == *old(self).conn,
            *final(self).conn == *final(c),
            final(self).ctx == old(self).ctx,
    {
        &mut self.conn
    }

    /// The failure to report for a status: the stream's kept failure, which
    /// is then no longer kept, else the status itself.
    fn get_error(&mut self, ret: OSStatus) -> (f: StreamFailure)
        ensures
            spec_failure_matches(old(self).spec_err(), ret, f),
            final(self).spec_err() is None,
            final(self).spec_stream() == old(self).spec_stream(),
            final(self).spec_context() == old(self).spec_context(),
    {
        let conn = self.connection_mut();
        match conn.err.take() {
            Some(err) => StreamFailure::Io(err),
            None => StreamFailure::Status(Error::new(ret)),
        }
    }

    /// The result of a read, given what the framework's read returned and
    /// the bytes it delivered: the bytes on success, nothing once the
    /// session has closed in any way, else the failure.
    pub fn read_outcome(&mut self, ret: OSStatus, nread: usize) -> (r: Result<usize, StreamFailure>)
        ensures
            ret == errSecSuccess ==> r == Ok::<usize, StreamFailure>(nread),
            (ret == errSSLClosedGraceful || ret == errSSLClosedAbort || ret
                == errSSLClosedNoNotify) ==> r == Ok::<usize, StreamFailure>(0),
            r is Ok <==> (ret == errSecSuccess || ret == errSSLClosedGraceful || ret
                == errSSLClosedAbort || ret == errSSLClosedNoNotify),
            r is Ok ==> final(self).spec_err() == old(self).spec_err(),
            r matches Err(f) ==> {
                &&& spec_failure_matches(old(self).spec_err(), ret, f)
                &&& final(self).spec_err() is None
            },
            final(self).spec_stream() == old(self).spec_stream(),
            final(self).spec_context() == old(self).spec_context(),
    {
        if ret == errSecSuccess {
            Ok(nread)
        } else if ret == errSSLClosedGraceful || ret == errSSLClosedAbort || ret
            == errSSLClosedNoNotify {
            Ok(0)
        } else {
            Err(self.get_error(ret))
        }
    }

    /// The result of a write, given what the framework's write returned and
    /// the bytes it took: the bytes on success, else the failure.
    pub fn write_outcome(&mut self, ret: OSStatus, nwritten: usize) -> (r: Result<
        usize,
        StreamFailure,
    >)
        ensures
            ret == errSecSuccess ==> r == Ok::<usize, StreamFailure>(nwritten),
            r is Ok <==> ret == errSecSuccess,
            r is Ok ==> final(self).spec_err() == old(self).spec_err(),
            r matches Err(f) ==> {
                &&& spec_failure_matches(old(self).spec_err(), ret, f)
                &&& final(self).spec_err() is None
            },
            final(self).spec_stream() == old(self).spec_stream(),
            final(self).spec_context() == old(self).spec_context(),
    {
        if ret == errSecSuccess {
            Ok(nwritten)
        } else {
            Err(self.get_error(ret))
        }
    }
}

/// A session whose handshake has paused, or not yet run.
pub struct MidHandshakeSslStream<S>(SslStream<S>);

/// Why a handshake did not finish.
pub enum HandshakeError<S> {
    /// The handshake failed with this error.
    Failure(Error),
    /// The peer's certificate chain arrived and the handshake paused so that
    /// the caller can evaluate it; the session can resume it.
    ServerAuthCompleted(MidHandshakeSslStream<S>),
}

impl<S> MidHandshakeSslStream<S> {
    /// The session's context.
    pub closed spec fn spec_context(&self) -> usize {
        self.0.spec_context()
    }

    /// The stream underneath.
    pub closed spec fn spec_stream(&self) -> S {
        self.0.spec_stream()
    }

    /// The stream's failure that has not been reported yet.
    pub closed spec fn spec_err(&self) -> Option<std::io::Error> {
        self.0.spec_err()
    }

    /// The session's context.
    pub fn context(&self) -> (c: &SslContext)
        ensures
            c@ == self.spec_context(),
    {
        self.0.context()
    }

    /// The session after one run of the framework's handshake that returned
    /// `status`: finished on success, paused again after the peer's
    /// certificate chain, else failed with the status.
    pub fn handshake(self, status: OSStatus) -> (r: Result<SslStream<S>, HandshakeError<S>>)
        ensures
            status == errSecSuccess <==> r is Ok,
            r matches Ok(s) ==> {
                &&& s.spec_context() == self.spec_context()
                &&& s.spec_stream() == self.spec_stream()
                &&& s.spec_err() == self.spec_err()
            },
            status == errSSLPeerAuthCompleted <==> r matches Err(
                HandshakeError::ServerAuthCompleted(_),
            ),
            r matches Err(HandshakeError::ServerAuthCompleted(m)) ==> {
                &&& m.spec_context() == self.spec_context()
                &&& m.spec_stream() == self.spec_stream()
                &&& m.spec_err() == self.spec_err()
            },
            r matches Err(HandshakeError::Failure(e)) ==> e@ == status,
    {
        if status == errSecSuccess {
            Ok(self.0)
        } else if status == errSSLPeerAuthCompleted {
            Err(HandshakeError::ServerAuthCompleted(self))
        } else {
            Err(HandshakeError::Failure(Error::new(status)))
        }
    }
}

/// A context whose callbacks are in place, with the connection that the
/// framework is to be given before the handshake starts.
pub struct PendingConnection<S> {
    ctx: SslContext,
    conn: Box<Connection<S>>,
}

impl<S> PendingConnection<S> {
    /// The context.
    pub closed spec fn spec_context(&self) -> usize {
        self.ctx@
    }

    /// The stream underneath.
    pub closed spec fn spec_stream(&self) -> S {
        self.conn.stream
    }

    /// The stream's failure that has not been reported yet.
    pub closed spec fn spec_err(&self) -> Option<std::io::Error> {
        self.conn.err
    }

    /// The context.
    pub fn context(&self) -> (c: &SslContext)
        ensures
            c@ == self.spec_context(),
    {
        &self.ctx
    }

    /// The connection, whose place the framework is given.
    pub fn connection_mut(&mut self) -> (c: &mut Connection<S>)
        ensures
            c.spec_stream() == old(self).spec_stream(),
            c.spec_err() == old(self).spec_err(),
            final(self).spec_stream() == final(c).spec_stream(),
            final(self).spec_err() == final(c).spec_err(),
            final(self).spec_context() == old(self).spec_context(),
    {
        &mut self.conn
    }

    /// The session, once the framework has been given the connection with
    /// the status `status`: ready for its handshake on success, else failed
    /// with the status.
    pub fn attach(self, status: OSStatus) -> (r: Result<MidHandshakeSslStream<S>, HandshakeError<S>>)
        ensures
            status == errSecSuccess <==> r is Ok,
            r matches Ok(m) ==> {
                &&& m.spec_context() == self.spec_context()
                &&& m.spec_stream() == self.spec_stream()
                &&& m.spec_err() == self.spec_err()
            },
            r matches Err(e) ==> e matches HandshakeError::Failure(err) && err@ == status,
    {
        match cvt(status) {
            Ok(()) => Ok(MidHandshakeSslStream(SslStream { ctx: self.ctx, conn: self.conn })),
            Err(e) => Err(HandshakeError::Failure(e)),
        }
    }
}

impl SslContext {
    /// Begins a handshake over `stream`, once the framework has been given
    /// the callbacks with the status `io_funcs_status`: the connection to
    /// hand over next on success, else a failure with the status.
    pub fn handshake<S>(self, stream: S, io_funcs_status: OSStatus) -> (r: Result<
        PendingConnection<S>,
        HandshakeError<S>,
    >)
        ensures
            io_funcs_status == errSecSuccess <==> r is Ok,
            r matches Ok(p) ==> {
                &&& p.spec_context() == self@
                &&& p.spec_stream() == stream
                &&& p.spec_err() is None
            },
            r matches Err(e) ==> e matches HandshakeError::Failure(err) && err@
                == io_funcs_status,
    {
        match cvt(io_funcs_status) {
            Ok(()) => Ok(PendingConnection { ctx: self, conn: Box::new(Connection::new(stream)) }),
            Err(e) => Err(HandshakeError::Failure(e)),
        }
    }
}

} // verus!
