//! Verified core of a binding to Apple's Security framework: the status
//! codes and raw enumerations of SecureTransport, the error type, cipher
//! suites, and the decisions that the TLS stream makes around each call
//! into the framework.
#![allow(non_upper_case_globals)]
#![allow(non_camel_case_types)]

pub mod sys;
pub mod base;
pub mod cipher_suite;
pub mod certificate;
pub mod identity;
pub mod trust;
pub mod secure_transport;
pub mod access_control;
pub mod os;
