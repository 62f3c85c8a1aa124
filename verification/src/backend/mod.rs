//! The calls into the cryptographic and encoding crates that this library
//! relies on, each behind a small wrapper whose contract states what the
//! wrapped function returns.

use vstd::prelude::*;

pub mod certificate;
pub mod ecdsa_sig;
pub mod ed25519_sig;
pub mod hashing;
pub mod public_key;
pub mod rsa_sig;

verus! {

/// A value that a decoding wrapper of this module built from `source`.
///
/// Only the decoding wrappers below construct a `Decoded` value, and none
/// changes it afterwards, so the value is a function of its source bytes:
/// what the wrappers state of a `Decoded` argument they state of the bytes
/// it was decoded from.
pub struct Decoded<T> {
    value: T,
    source: Ghost<Seq<u8>>,
}

impl<T> View for Decoded<T> {
    type V = Seq<u8>;

    closed spec fn view(&self) -> Seq<u8> {
        self.source@
    }
}

/// The error type of the `der` crate.
#[verifier::external_type_specification]
#[verifier::external_body]
pub struct ExDerError(der::Error);

/// The error type of the `spki` crate.
#[verifier::external_type_specification]
#[verifier::external_body]
pub struct ExSpkiError(spki::Error);

/// The error type of the `rsa` crate.
#[verifier::external_type_specification]
#[verifier::external_body]
pub struct ExRsaError(rsa::Error);

/// The error type of the `pkcs1` crate, as the `rsa` crate re-exports it.
#[verifier::external_type_specification]
#[verifier::external_body]
pub struct ExPkcs1Error(rsa::pkcs1::Error);

/// The error type of the `signature` crate (ECDSA and Ed25519 failures).
#[verifier::external_type_specification]
#[verifier::external_body]
pub struct ExSignatureError(ecdsa::signature::Error);

} // verus!
