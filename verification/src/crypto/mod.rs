//! Cryptographic algorithms and signature verification.

pub mod algorithm;
pub mod laws;
pub mod oid;
pub mod verify;
