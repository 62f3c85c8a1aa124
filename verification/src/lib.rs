//! Shared signature verification for timestamping (RFC 3161) and long-term
//! validation: the verification of signatures over certificates, CRLs, OCSP
//! responses and timestamp tokens, by algorithm identifier.

pub mod crypto;
pub mod error;
pub mod backend;
