//! ECDSA verification over the NIST curves (`ecdsa`, `p256`, `p384`, `p521`).
//!
//! Verus refuses to declare the curve-generic `ecdsa` key and signature types
//! (their bounds name traits of the `elliptic-curve` crate), so each is held
//! in a struct of this module that Verus sees as opaque.

use vstd::prelude::*;
use ecdsa::signature::hazmat::PrehashVerifier;
use ecdsa::signature::Verifier;
use spki::DecodePublicKey;
use super::Decoded;

verus! {

/// A P-256 ECDSA verifying key.
#[verifier::external_body]
pub struct P256Key {
    key: p256::ecdsa::VerifyingKey,
}

/// A P-256 ECDSA signature.
#[verifier::external_body]
pub struct P256Signature {
    sig: p256::ecdsa::Signature,
}

/// Whether `spki` (a DER SubjectPublicKeyInfo) holds a P-256 public key.
pub uninterp spec fn p256_key_decodes(spki: Seq<u8>) -> bool;

/// Whether `sig` is a DER-encoded P-256 ECDSA signature.
pub uninterp spec fn p256_signature_decodes(sig: Seq<u8>) -> bool;

/// Whether the P-256 key of `spki` accepts the signature `sig` over the
/// prehashed message `prehash`.
pub uninterp spec fn p256_prehash_accepted(spki: Seq<u8>, sig: Seq<u8>, prehash: Seq<u8>) -> bool;

/// Whether the P-256 key of `spki` accepts the signature `sig` over
/// `msg`, hashed with the curve's own digest.
pub uninterp spec fn p256_message_accepted(spki: Seq<u8>, sig: Seq<u8>, msg: Seq<u8>) -> bool;

/// `p256::ecdsa::VerifyingKey::from_public_key_der` (`spki::DecodePublicKey`): decodes the
/// SubjectPublicKeyInfo and converts it into a P-256 verifying key.
#[verifier::external_body]
pub(crate) fn decode_p256_key(spki_der: &[u8]) -> (res: Result<Decoded<P256Key>, spki::Error>)
    ensures
        res is Ok <==> p256_key_decodes(spki_der@),
        res matches Ok(k) ==> k@ == spki_der@,
{
    <p256::ecdsa::VerifyingKey>::from_public_key_der(spki_der).map(|key| Decoded { value: P256Key { key }, source: Ghost(spki_der@) })
}

/// `p256::ecdsa::Signature::from_der`: decodes a DER (`r`, `s`) signature.
#[verifier::external_body]
pub(crate) fn decode_p256_signature(sig_der: &[u8]) -> (res: Result<Decoded<P256Signature>, ecdsa::signature::Error>)
    ensures
        res is Ok <==> p256_signature_decodes(sig_der@),
        res matches Ok(s) ==> s@ == sig_der@,
{
    <p256::ecdsa::Signature>::from_der(sig_der).map(|sig| Decoded { value: P256Signature { sig }, source: Ghost(sig_der@) })
}

/// `PrehashVerifier::verify_prehash` of the P-256 verifying key. The crate
/// rejects a prehash shorter than half the field size (16 bytes).
#[verifier::external_body]
pub(crate) fn verify_p256_prehash(key: &Decoded<P256Key>, prehash: &[u8], sig: &Decoded<P256Signature>) -> (res: Result<(), ecdsa::signature::Error>)
    ensures
        res is Ok <==> p256_prehash_accepted(key@, sig@, prehash@),
        prehash@.len() < 16 ==> res is Err,
{
    key.value.key.verify_prehash(prehash, &sig.value.sig)
}

/// `Verifier::verify` of the P-256 verifying key: hashes `msg` with the
/// curve's digest and checks the signature.
#[verifier::external_body]
pub(crate) fn verify_p256_message(key: &Decoded<P256Key>, msg: &[u8], sig: &Decoded<P256Signature>) -> (res: Result<(), ecdsa::signature::Error>)
    ensures
        res is Ok <==> p256_message_accepted(key@, sig@, msg@),
{
    key.value.key.verify(msg, &sig.value.sig)
}

/// A P-384 ECDSA verifying key.
#[verifier::external_body]
pub struct P384Key {
    key: p384::ecdsa::VerifyingKey,
}

/// A P-384 ECDSA signature.
#[verifier::external_body]
pub struct P384Signature {
    sig: p384::ecdsa::Signature,
}

/// Whether `spki` (a DER SubjectPublicKeyInfo) holds a P-384 public key.
pub uninterp spec fn p384_key_decodes(spki: Seq<u8>) -> bool;

/// Whether `sig` is a DER-encoded P-384 ECDSA signature.
pub uninterp spec fn p384_signature_decodes(sig: Seq<u8>) -> bool;

/// Whether the P-384 key of `spki` accepts the signature `sig` over the
/// prehashed message `prehash`.
pub uninterp spec fn p384_prehash_accepted(spki: Seq<u8>, sig: Seq<u8>, prehash: Seq<u8>) -> bool;

/// Whether the P-384 key of `spki` accepts the signature `sig` over
/// `msg`, hashed with the curve's own digest.
pub uninterp spec fn p384_message_accepted(spki: Seq<u8>, sig: Seq<u8>, msg: Seq<u8>) -> bool;

/// `p384::ecdsa::VerifyingKey::from_public_key_der` (`spki::DecodePublicKey`): decodes the
/// SubjectPublicKeyInfo and converts it into a P-384 verifying key.
#[verifier::external_body]
pub(crate) fn decode_p384_key(spki_der: &[u8]) -> (res: Result<Decoded<P384Key>, spki::Error>)
    ensures
        res is Ok <==> p384_key_decodes(spki_der@),
        res matches Ok(k) ==> k@ == spki_der@,
{
    <p384::ecdsa::VerifyingKey>::from_public_key_der(spki_der).map(|key| Decoded { value: P384Key { key }, source: Ghost(spki_der@) })
}

/// `p384::ecdsa::Signature::from_der`: decodes a DER (`r`, `s`) signature.
#[verifier::external_body]
pub(crate) fn decode_p384_signature(sig_der: &[u8]) -> (res: Result<Decoded<P384Signature>, ecdsa::signature::Error>)
    ensures
        res is Ok <==> p384_signature_decodes(sig_der@),
        res matches Ok(s) ==> s@ == sig_der@,
{
    <p384::ecdsa::Signature>::from_der(sig_der).map(|sig| Decoded { value: P384Signature { sig }, source: Ghost(sig_der@) })
}

/// `PrehashVerifier::verify_prehash` of the P-384 verifying key. The crate
/// rejects a prehash shorter than half the field size (24 bytes).
#[verifier::external_body]
pub(crate) fn verify_p384_prehash(key: &Decoded<P384Key>, prehash: &[u8], sig: &Decoded<P384Signature>) -> (res: Result<(), ecdsa::signature::Error>)
    ensures
        res is Ok <==> p384_prehash_accepted(key@, sig@, prehash@),
        prehash@.len() < 24 ==> res is Err,
{
    key.value.key.verify_prehash(prehash, &sig.value.sig)
}

/// `Verifier::verify` of the P-384 verifying key: hashes `msg` with the
/// curve's digest and checks the signature.
#[verifier::external_body]
pub(crate) fn verify_p384_message(key: &Decoded<P384Key>, msg: &[u8], sig: &Decoded<P384Signature>) -> (res: Result<(), ecdsa::signature::Error>)
    ensures
        res is Ok <==> p384_message_accepted(key@, sig@, msg@),
{
    key.value.key.verify(msg, &sig.value.sig)
}

/// A P-521 ECDSA verifying key.
#[verifier::external_body]
pub struct P521Key {
    key: ecdsa::VerifyingKey<p521::NistP521>,
}

/// A P-521 ECDSA signature.
#[verifier::external_body]
pub struct P521Signature {
    sig: ecdsa::Signature<p521::NistP521>,
}

/// Whether `spki` (a DER SubjectPublicKeyInfo) holds a P-521 public key.
pub uninterp spec fn p521_key_decodes(spki: Seq<u8>) -> bool;

/// Whether `sig` is a DER-encoded P-521 ECDSA signature.
pub uninterp spec fn p521_signature_decodes(sig: Seq<u8>) -> bool;

/// Whether the P-521 key of `spki` accepts the signature `sig` over the
/// prehashed message `prehash`.
pub uninterp spec fn p521_prehash_accepted(spki: Seq<u8>, sig: Seq<u8>, prehash: Seq<u8>) -> bool;

/// `ecdsa::VerifyingKey<p521::NistP521>::from_public_key_der` (`spki::DecodePublicKey`): decodes the
/// SubjectPublicKeyInfo and converts it into a P-521 verifying key.
#[verifier::external_body]
pub(crate) fn decode_p521_key(spki_der: &[u8]) -> (res: Result<Decoded<P521Key>, spki::Error>)
    ensures
        res is Ok <==> p521_key_decodes(spki_der@),
        res matches Ok(k) ==> k@ == spki_der@,
{
    <ecdsa::VerifyingKey<p521::NistP521>>::from_public_key_der(spki_der).map(|key| Decoded { value: P521Key { key }, source: Ghost(spki_der@) })
}

/// `ecdsa::Signature<p521::NistP521>::from_der`: decodes a DER (`r`, `s`) signature.
#[verifier::external_body]
pub(crate) fn decode_p521_signature(sig_der: &[u8]) -> (res: Result<Decoded<P521Signature>, ecdsa::signature::Error>)
    ensures
        res is Ok <==> p521_signature_decodes(sig_der@),
        res matches Ok(s) ==> s@ == sig_der@,
{
    <ecdsa::Signature<p521::NistP521>>::from_der(sig_der).map(|sig| Decoded { value: P521Signature { sig }, source: Ghost(sig_der@) })
}

/// `PrehashVerifier::verify_prehash` of the P-521 verifying key. The crate
/// rejects a prehash shorter than half the field size (33 bytes).
#[verifier::external_body]
pub(crate) fn verify_p521_prehash(key: &Decoded<P521Key>, prehash: &[u8], sig: &Decoded<P521Signature>) -> (res: Result<(), ecdsa::signature::Error>)
    ensures
        res is Ok <==> p521_prehash_accepted(key@, sig@, prehash@),
        prehash@.len() < 33 ==> res is Err,
{
    key.value.key.verify_prehash(prehash, &sig.value.sig)
}

} // verus!
