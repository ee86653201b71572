//! Functionality specific to an operating system.
pub mod macos;
