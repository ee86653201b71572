# security-framework

A binding to Apple's Security framework whose decisions are proved
correct against their specifications.

- `src/` is the verified library: the SecureTransport status codes and raw
  enumerations (`sys`), the error type and the conversion of a status into a
  result (`base`), cipher suites (`cipher_suite`), handles of framework
  objects (`certificate`, `identity`, `trust`, `os::macos::keychain`), access
  control (`access_control`), item search options (`os::macos::item`), and
  the TLS session (`secure_transport`): which result each framework status
  gives, the handshake's steps, and the state machine that the framework's
  read and write callbacks run over the caller's stream.
- `app/` makes the calls into the framework (its C interface is declared in
  `app/ffi.rs`), runs the callbacks' loop over the caller's stream, gives
  the session `std::io::Read` and `Write`, and owns the framework's objects
  (`Context`, `MidHandshake`, `TlsStream`, `Trust`, `AccessControl`),
  releasing them when dropped. Apart from sorting a stream error into the
  kinds the framework tells apart, every decision it needs is a call into
  the library.
