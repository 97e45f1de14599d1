//! A symmetric chain ratchet for a double-ratchet style messaging session.
//!
//! Starting from a 256-bit chain secret, the ratchet deterministically and
//! irreversibly derives one message key per chain position while replacing the
//! secret itself, so that a later chain state never reveals an earlier message
//! key. A sending chain binds each derived key to the sender's active ratchet
//! public key; a receiving chain derives keys from the chain secret alone.

pub mod chain;
pub mod kdf;
pub mod keys;
