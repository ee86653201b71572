//! Functionality specific to OSX.
pub mod keychain;
pub mod item;
