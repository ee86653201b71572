use std::io;

use security_framework::base::Error;
use security_framework::certificate::SecCertificate;
use security_framework::cipher_suite::CipherSuite;
use security_framework::identity::SecIdentity;
use security_framework::secure_transport::{
    translate_err, HandshakeError, Connection, IoErrorKind, MidHandshakeSslStream, ProtocolSide,
    SessionState, SslContext, SslStream, StreamFailure, Transfer, TransferStep,
};
use security_framework::sys::{
    errSSLClosedAbort, errSSLClosedGraceful, errSSLClosedNoNotify, errSSLPeerAuthCompleted,
    errSSLWouldBlock, errSecBadReq, errSecDecode, errSecIO, errSecSuccess, SSLProtocolSide, SSLSessionState,
};

fn mid_handshake(stream: Vec<u8>) -> MidHandshakeSslStream<Vec<u8>> {
    let ctx = SslContext::wrap(0x1000);
    let pending = ctx.handshake(stream, errSecSuccess).ok().expect("callbacks accepted");
    pending.attach(errSecSuccess).ok().expect("connection accepted")
}

fn connected(stream: Vec<u8>) -> SslStream<Vec<u8>> {
    mid_handshake(stream).handshake(errSecSuccess).ok().expect("handshake finished")
}

#[test]
fn protocol_side_to_raw() {
    assert_eq!(ProtocolSide::Server.to_raw(), SSLProtocolSide::kSSLServerSide);
    assert_eq!(ProtocolSide::Client.to_raw(), SSLProtocolSide::kSSLClientSide);
    assert_eq!(ProtocolSide::Server.is_server_flag(), 1);
    assert_eq!(ProtocolSide::Client.is_server_flag(), 0);
}

#[test]
fn session_state_from_raw() {
    assert_eq!(SessionState::from_raw(SSLSessionState::kSSLIdle), SessionState::Idle);
    assert_eq!(SessionState::from_raw(SSLSessionState::kSSLHandshake), SessionState::Handshake);
    assert_eq!(SessionState::from_raw(SSLSessionState::kSSLConnected), SessionState::Connected);
    assert_eq!(SessionState::from_raw(SSLSessionState::kSSLClosed), SessionState::Closed);
    assert_eq!(SessionState::from_raw(SSLSessionState::kSSLAborted), SessionState::Aborted);
}

#[test]
fn new_context_follows_status() {
    let ctx = SslContext::from_new_context(errSecSuccess, 0x2000).ok().unwrap();
    assert_eq!(ctx.as_raw(), 0x2000);
    let err = SslContext::from_new_context(errSecIO, 0x2000).err().unwrap();
    assert_eq!(err.code(), errSecIO);
    assert_eq!(SslContext::wrap(7).as_raw(), 7);
}

#[test]
fn state_query() {
    assert_eq!(SslContext::state_from(errSecSuccess, 0), Ok(SessionState::Idle));
    assert_eq!(SslContext::state_from(errSecSuccess, 2), Ok(SessionState::Connected));
    assert_eq!(SslContext::state_from(errSecSuccess, 4), Ok(SessionState::Aborted));
    assert_eq!(SslContext::state_from(-50, 2), Err(Error::new(-50)));
    assert_eq!(SslContext::state_from(-50, 9), Err(Error::new(-50)));
}

#[test]
fn state_query_unknown_value() {
    assert_eq!(SslContext::state_from(errSecSuccess, 5), Err(Error::new(errSecDecode)));
    assert_eq!(SslContext::state_from(errSecSuccess, -1), Err(Error::new(errSecDecode)));
}

#[test]
fn idle_context_peer_trust() {
    let state = SslContext::state_from(errSecSuccess, SSLSessionState::kSSLIdle.value());
    let r = SslContext::peer_trust_allowed(state);
    assert!(r.is_err());
    assert_eq!(r.unwrap_err().code(), errSecBadReq);
}

#[test]
fn peer_trust_after_handshake_started() {
    assert_eq!(SslContext::peer_trust_allowed(Ok(SessionState::Handshake)), Ok(()));
    assert_eq!(SslContext::peer_trust_allowed(Ok(SessionState::Connected)), Ok(()));
    assert_eq!(
        SslContext::peer_trust_allowed(Err(Error::new(-36))),
        Err(Error::new(-36))
    );
    let trust = SslContext::peer_trust_from(errSecSuccess, 0x3000).unwrap();
    assert_eq!(trust.as_raw(), 0x3000);
    assert_eq!(SslContext::peer_trust_from(-909, 0x3000).unwrap_err().code(), -909);
}

#[test]
fn negotiated_cipher_query() {
    assert_eq!(
        SslContext::negotiated_cipher_from(errSecSuccess, 0x006B),
        Ok(CipherSuite::from_raw(0x006B))
    );
    assert_eq!(
        SslContext::negotiated_cipher_from(-9806, 0x006B),
        Err(Error::new(-9806))
    );
}

#[test]
fn certificate_chain_puts_identity_first() {
    let identity = SecIdentity::from_raw(10);
    let certs = [
        SecCertificate::from_raw(20),
        SecCertificate::from_raw(30),
    ];
    assert_eq!(SslContext::certificate_chain(&identity, &certs), vec![10, 20, 30]);
    assert_eq!(SslContext::certificate_chain(&identity, &[]), vec![10]);
}

#[test]
fn translate_err_statuses() {
    assert_eq!(translate_err(IoErrorKind::NotFound), errSSLClosedGraceful);
    assert_eq!(translate_err(IoErrorKind::ConnectionReset), errSSLClosedAbort);
    assert_eq!(translate_err(IoErrorKind::WouldBlock), errSSLWouldBlock);
    assert_eq!(translate_err(IoErrorKind::Other), errSecIO);
}

#[test]
fn transfer_fills_buffer() {
    let mut t = Transfer::new(10);
    assert_eq!(t.next(), TransferStep::Continue(0));
    t.advance((4));
    assert_eq!(t.next(), TransferStep::Continue(4));
    t.advance((6));
    assert_eq!(t.next(), TransferStep::Finish(10, errSecSuccess));
}

#[test]
fn transfer_of_empty_buffer_finishes_at_once() {
    let t = Transfer::new(0);
    assert_eq!(t.next(), TransferStep::Finish(0, errSecSuccess));
}

#[test]
fn transfer_stops_when_stream_closes() {
    let mut t = Transfer::new(8);
    t.advance((3));
    t.advance((0));
    assert_eq!(t.next(), TransferStep::Finish(3, errSSLClosedNoNotify));
}

#[test]
fn transfer_stops_on_failure() {
    let mut conn = Connection::new(Vec::<u8>::new());
    let mut t = Transfer::new(8);
    t.advance(5);
    t.fail(&mut conn, io::Error::new(io::ErrorKind::WouldBlock, "later"), IoErrorKind::WouldBlock);
    assert_eq!(t.next(), TransferStep::Finish(5, errSSLWouldBlock));
    let mut u = Transfer::new(8);
    u.fail(&mut conn, io::Error::new(io::ErrorKind::ConnectionReset, "reset"), IoErrorKind::ConnectionReset);
    assert_eq!(u.next(), TransferStep::Finish(0, errSSLClosedAbort));
}

#[test]
fn transfer_failure_is_kept_for_the_session() {
    let ctx = SslContext::wrap(0x1000);
    let mut pending = ctx.handshake(Vec::<u8>::new(), errSecSuccess).ok().unwrap();
    let mut t = Transfer::new(4);
    t.fail(
        pending.connection_mut(),
        io::Error::new(io::ErrorKind::ConnectionReset, "reset"),
        IoErrorKind::ConnectionReset,
    );
    assert_eq!(t.next(), TransferStep::Finish(0, errSSLClosedAbort));
    let mut stream = pending
        .attach(errSecSuccess)
        .ok()
        .unwrap()
        .handshake(errSecSuccess)
        .ok()
        .unwrap();
    match stream.read_outcome(errSSLClosedAbort - 1, 0) {
        Err(StreamFailure::Io(e)) => assert_eq!(e.kind(), io::ErrorKind::ConnectionReset),
        _ => panic!("expected the stream's failure"),
    }
}

#[test]
fn transfer_reports_a_count_past_the_buffer() {
    let mut t = Transfer::new(4);
    t.advance(3);
    t.advance(5);
    assert_eq!(t.next(), TransferStep::Finish(8, errSecSuccess));
}

#[test]
fn handshake_callback_failure() {
    let ctx = SslContext::wrap(0x1000);
    match ctx.handshake(vec![1u8], -50) {
        Err(HandshakeError::Failure(e)) => assert_eq!(e.code(), -50),
        _ => panic!("expected failure"),
    }
}

#[test]
fn handshake_connection_failure() {
    let ctx = SslContext::wrap(0x1000);
    let pending = ctx.handshake(vec![1u8], errSecSuccess).ok().unwrap();
    assert_eq!(pending.context().as_raw(), 0x1000);
    match pending.attach(-909) {
        Err(HandshakeError::Failure(e)) => assert_eq!(e.code(), -909),
        _ => panic!("expected failure"),
    }
}

#[test]
fn handshake_pauses_then_finishes() {
    let mid = mid_handshake(vec![7u8, 8]);
    assert_eq!(mid.context().as_raw(), 0x1000);
    let mid = match mid.handshake(errSSLPeerAuthCompleted) {
        Err(HandshakeError::ServerAuthCompleted(m)) => m,
        _ => panic!("expected a pause"),
    };
    let stream = mid.handshake(errSecSuccess).ok().expect("handshake finished");
    assert_eq!(stream.get_ref(), &vec![7u8, 8]);
    assert_eq!(stream.context().as_raw(), 0x1000);
}

#[test]
fn handshake_failure_status() {
    match mid_handshake(vec![]).handshake(-9806) {
        Err(HandshakeError::Failure(e)) => assert_eq!(e.code(), -9806),
        _ => panic!("expected failure"),
    }
}

#[test]
fn stream_get_mut_changes_stream() {
    let mut stream = connected(vec![1u8]);
    stream.get_mut().push(2);
    assert_eq!(stream.get_ref(), &vec![1u8, 2]);
}

#[test]
fn read_outcomes() {
    let mut stream = connected(vec![]);
    assert_eq!(stream.read_outcome(errSecSuccess, 12).ok(), Some(12));
    assert_eq!(stream.read_outcome(errSSLClosedGraceful, 5).ok(), Some(0));
    assert_eq!(stream.read_outcome(errSSLClosedAbort, 5).ok(), Some(0));
    assert_eq!(stream.read_outcome(errSSLClosedNoNotify, 5).ok(), Some(0));
    match stream.read_outcome(-9800, 0) {
        Err(StreamFailure::Status(e)) => assert_eq!(e.code(), -9800),
        _ => panic!("expected a status failure"),
    }
}

#[test]
fn write_outcomes() {
    let mut stream = connected(vec![]);
    assert_eq!(stream.write_outcome(errSecSuccess, 3).ok(), Some(3));
    match stream.write_outcome(errSSLClosedAbort, 0) {
        Err(StreamFailure::Status(e)) => assert_eq!(e.code(), errSSLClosedAbort),
        _ => panic!("expected a status failure"),
    }
}

#[test]
fn kept_stream_error_is_reported_once() {
    let ctx = SslContext::wrap(0x1000);
    let mut pending = ctx.handshake(Vec::<u8>::new(), errSecSuccess).ok().unwrap();
    pending
        .connection_mut()
        .record_error(io::Error::new(io::ErrorKind::TimedOut, "slow peer"));
    let mid = pending.attach(errSecSuccess).ok().unwrap();
    let mut stream = mid.handshake(errSecSuccess).ok().unwrap();
    match stream.read_outcome(errSecIO, 0) {
        Err(StreamFailure::Io(e)) => assert_eq!(e.kind(), io::ErrorKind::TimedOut),
        _ => panic!("expected the stream's failure"),
    }
    match stream.write_outcome(errSecIO, 0) {
        Err(StreamFailure::Status(e)) => assert_eq!(e.code(), errSecIO),
        _ => panic!("expected a status failure"),
    }
}

#[test]
fn connection_stream_access() {
    let ctx = SslContext::wrap(1);
    let mut pending = ctx.handshake(vec![1u8], errSecSuccess).ok().unwrap();
    pending.connection_mut().stream_mut().push(9);
    let stream = pending
        .attach(errSecSuccess)
        .ok()
        .unwrap()
        .handshake(errSecSuccess)
        .ok()
        .unwrap();
    assert_eq!(stream.get_ref(), &vec![1u8, 9]);
}

#[test]
fn kept_stream_error_survives_paused_handshake() {
    let ctx = SslContext::wrap(0x1000);
    let mut pending = ctx.handshake(Vec::<u8>::new(), errSecSuccess).ok().unwrap();
    pending
        .connection_mut()
        .record_error(io::Error::new(io::ErrorKind::BrokenPipe, "peer left"));
    let mid = pending.attach(errSecSuccess).ok().unwrap();
    let mid = match mid.handshake(errSSLPeerAuthCompleted) {
        Err(HandshakeError::ServerAuthCompleted(m)) => m,
        _ => panic!("expected a pause"),
    };
    let mut stream = mid.handshake(errSecSuccess).ok().unwrap();
    match stream.write_outcome(errSecIO, 0) {
        Err(StreamFailure::Io(e)) => assert_eq!(e.kind(), io::ErrorKind::BrokenPipe),
        _ => panic!("expected the stream's failure"),
    }
}
