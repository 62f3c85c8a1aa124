//! Ed25519 verification (`ed25519-dalek`).

use vstd::prelude::*;
use ed25519_dalek::Verifier;
use super::Decoded;

verus! {

/// The Ed25519 verifying key type of `ed25519-dalek`.
#[verifier::external_type_specification]
#[verifier::external_body]
pub struct ExEd25519VerifyingKey(ed25519_dalek::VerifyingKey);

/// The Ed25519 signature type of the `ed25519` crate.
#[verifier::external_type_specification]
#[verifier::external_body]
pub struct ExEd25519Signature(ed25519_dalek::Signature);

/// Whether `key` is the encoding of an Ed25519 public key.
pub uninterp spec fn ed25519_key_decodes(key: Seq<u8>) -> bool;

/// Whether the Ed25519 public key `key` accepts `sig` as a signature of `msg`.
pub uninterp spec fn ed25519_signature_accepted(key: Seq<u8>, msg: Seq<u8>, sig: Seq<u8>) -> bool;

/// `VerifyingKey::try_from(&[u8])`: decodes a 32-byte compressed Edwards
/// point; fails on any other length or on bytes that are not a point.
#[verifier::external_body]
pub(crate) fn decode_ed25519_key(key: &[u8]) -> (res: Result<Decoded<ed25519_dalek::VerifyingKey>, ed25519_dalek::SignatureError>)
    ensures
        res is Ok <==> ed25519_key_decodes(key@),
        key@.len() != 32 ==> res is Err,
        res matches Ok(k) ==> k@ == key@,
{
    ed25519_dalek::VerifyingKey::try_from(key).map(|value| Decoded { value, source: Ghost(key@) })
}

/// `Signature::from_slice`: accepts exactly the 64-byte slices.
#[verifier::external_body]
pub(crate) fn decode_ed25519_signature(sig: &[u8]) -> (res: Result<Decoded<ed25519_dalek::Signature>, ed25519_dalek::SignatureError>)
    ensures
        res is Ok <==> sig@.len() == 64,
        res matches Ok(s) ==> s@ == sig@,
{
    ed25519_dalek::Signature::from_slice(sig).map(|value| Decoded { value, source: Ghost(sig@) })
}

/// `Verifier::verify` of an Ed25519 verifying key.
#[verifier::external_body]
pub(crate) fn verify_ed25519(key: &Decoded<ed25519_dalek::VerifyingKey>, msg: &[u8], sig: &Decoded<ed25519_dalek::Signature>) -> (res: Result<(), ed25519_dalek::SignatureError>)
    ensures
        res is Ok <==> ed25519_signature_accepted(key@, msg@, sig@),
{
    key.value.verify(msg, &sig.value)
}

} // verus!
