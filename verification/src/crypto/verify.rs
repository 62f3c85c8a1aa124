//! Signature verification by algorithm identifier.
//!
//! Supports:
//! - RSA PKCS#1 v1.5 with MD5 (legacy), SHA-1 (legacy), SHA-224, SHA-256,
//!   SHA-384, SHA-512
//! - RSA-PSS (RSASSA-PSS) with SHA-256, SHA-384, SHA-512
//! - ECDSA with the curve read from the key and the digest from the
//!   algorithm: P-256/SHA-256, P-384/SHA-384, P-521/SHA-512, P-521/SHA-256,
//!   P-521/SHA-384, and the legacy P-256/SHA-1 and P-384/SHA-1
//! - Ed25519

use vstd::prelude::*;
use crate::backend::ecdsa_sig::{
    decode_p256_key, decode_p256_signature, decode_p384_key, decode_p384_signature,
    decode_p521_key, decode_p521_signature, p256_key_decodes, p256_message_accepted,
    p256_prehash_accepted, p256_signature_decodes, p384_key_decodes, p384_message_accepted,
    p384_prehash_accepted, p384_signature_decodes, p521_key_decodes, p521_prehash_accepted,
    p521_signature_decodes, verify_p256_message, verify_p256_prehash, verify_p384_message,
    verify_p384_prehash, verify_p521_prehash,
};
use crate::backend::ed25519_sig::{
    decode_ed25519_key, decode_ed25519_signature, ed25519_key_decodes,
    ed25519_signature_accepted, verify_ed25519,
};
use crate::backend::hashing::{
    md5, md5_digest, sha1, sha1_digest, sha224, sha224_digest, sha256, sha256_digest, sha384,
    sha384_digest, sha512, sha512_digest,
};
use crate::backend::public_key::{decode_spki, spki_fields};
use crate::backend::rsa_sig::{
    decode_rsa_pss_params, decode_rsa_public_key, rsa_pss_params_decoding, rsa_public_key_decodes,
    rsa_signature_accepted, RsaPadding,
    verify_pkcs1v15_md5, verify_pkcs1v15_sha1, verify_pkcs1v15_sha224, verify_pkcs1v15_sha256,
    verify_pkcs1v15_sha384, verify_pkcs1v15_sha512, verify_pss_md5, verify_pss_sha1,
    verify_pss_sha224, verify_pss_sha256, verify_pss_sha384, verify_pss_sha512,
};
use crate::backend::certificate::{
    certificate_algorithms_agree, certificate_decodes, certificate_signature_algorithm_oid,
    certificate_signature_bits, certificate_signature_parameters_encoding, decode_certificate,
    encode_signature_algorithm_parameters, encode_subject_public_key_info,
    encode_tbs_certificate, signature_algorithm_oid, signature_algorithms_agree,
    signature_bits, subject_public_key_info_encoding, tbs_certificate_encoding,
    X509Certificate,
};
use crate::backend::Decoded;
use crate::crypto::algorithm::{
    bytes_equal, spec_digest_from_oid, spec_output_len, AlgorithmIdentifier, DigestAlgorithm,
    OID_EC_PUBLIC_KEY, OID_ECDSA_WITH_SHA1, OID_ECDSA_WITH_SHA256, OID_ECDSA_WITH_SHA384, OID_ECDSA_WITH_SHA512, OID_ED25519,
    OID_MD5_WITH_RSA, OID_MGF1, OID_RSASSA_PSS, OID_SECP256R1, OID_SECP384R1, OID_SECP521R1,
    OID_SHA1_WITH_RSA, OID_SHA224_WITH_RSA, OID_SHA256_WITH_RSA, OID_SHA384_WITH_RSA,
    OID_SHA512_WITH_RSA,
};
use crate::crypto::oid::Oid;
use crate::error::{Curve, Failure, KeyKind, SignatureScheme, TrustError, Unsupported};

verus! {

/// A failed verification at step `f`.
pub open spec fn failed<T>(f: Failure) -> Result<T, TrustError> {
    Err(TrustError::SignatureVerification(f))
}

/// An unsupported algorithm, for reason `u`.
pub open spec fn unsupported<T>(u: Unsupported) -> Result<T, TrustError> {
    Err(TrustError::UnsupportedAlgorithm(u))
}

/// The digest of `data` under `d`.
pub open spec fn spec_hash(d: DigestAlgorithm, data: Seq<u8>) -> Seq<u8> {
    match d {
        DigestAlgorithm::Md5 => md5_digest(data),
        DigestAlgorithm::Sha1 => sha1_digest(data),
        DigestAlgorithm::Sha224 => sha224_digest(data),
        DigestAlgorithm::Sha256 => sha256_digest(data),
        DigestAlgorithm::Sha384 => sha384_digest(data),
        DigestAlgorithm::Sha512 => sha512_digest(data),
    }
}

/// The digest that an RSA padding signs.
pub open spec fn padding_digest(p: RsaPadding) -> DigestAlgorithm {
    match p {
        RsaPadding::Pkcs1v15(d) => d,
        RsaPadding::Pss(d, _) => d,
    }
}

/// The signature scheme of an RSA padding.
pub open spec fn padding_scheme(p: RsaPadding) -> SignatureScheme {
    match p {
        RsaPadding::Pkcs1v15(d) => SignatureScheme::RsaPkcs1v15(d),
        RsaPadding::Pss(d, _) => SignatureScheme::RsaPss(d),
    }
}

/// The outcome of verifying an RSA signature `sig` over `tbs` with the key
/// of `spki` under `padding`: the SPKI must decode, its key must be an RSA
/// key, then the signature must verify over the digest of `tbs`.
pub open spec fn rsa_outcome(padding: RsaPadding, tbs: Seq<u8>, sig: Seq<u8>, spki: Seq<u8>) -> Result<(), TrustError> {
    if spki_fields(spki) is None {
        failed(Failure::SpkiDecode)
    } else if !rsa_public_key_decodes(spki) {
        failed(Failure::KeyDecode(KeyKind::Rsa))
    } else if rsa_signature_accepted(spki, padding, spec_hash(padding_digest(padding), tbs), sig) {
        Ok(())
    } else {
        failed(Failure::SignatureInvalid(padding_scheme(padding)))
    }
}

/// The outcome of an ECDSA verification with the SPKI `spki`, whose key
/// decodes as `key_ok`, a signature that decodes as `sig_ok`, and a verdict
/// `accepted`.
pub open spec fn ecdsa_outcome(kind: KeyKind, spki: Seq<u8>, key_ok: bool, sig_ok: bool, accepted: bool, scheme: SignatureScheme) -> Result<(), TrustError> {
    if spki_fields(spki) is None {
        failed(Failure::SpkiDecode)
    } else if !key_ok {
        failed(Failure::KeyDecode(kind))
    } else if !sig_ok {
        failed(Failure::SignatureDecode(kind))
    } else if accepted {
        Ok(())
    } else {
        failed(Failure::SignatureInvalid(scheme))
    }
}

/// P-256 with SHA-256, the curve's own digest.
pub open spec fn p256_outcome(tbs: Seq<u8>, sig: Seq<u8>, spki: Seq<u8>) -> Result<(), TrustError> {
    ecdsa_outcome(KeyKind::P256, spki, p256_key_decodes(spki), p256_signature_decodes(sig),
        p256_message_accepted(spki, sig, tbs), SignatureScheme::Ecdsa(Curve::P256, DigestAlgorithm::Sha256))
}

/// P-384 with SHA-384, the curve's own digest.
pub open spec fn p384_outcome(tbs: Seq<u8>, sig: Seq<u8>, spki: Seq<u8>) -> Result<(), TrustError> {
    ecdsa_outcome(KeyKind::P384, spki, p384_key_decodes(spki), p384_signature_decodes(sig),
        p384_message_accepted(spki, sig, tbs), SignatureScheme::Ecdsa(Curve::P384, DigestAlgorithm::Sha384))
}

/// P-256 over a prehash computed with `d`.
pub open spec fn p256_prehash_outcome(d: DigestAlgorithm, prehash: Seq<u8>, sig: Seq<u8>, spki: Seq<u8>) -> Result<(), TrustError> {
    ecdsa_outcome(KeyKind::P256, spki, p256_key_decodes(spki), p256_signature_decodes(sig),
        p256_prehash_accepted(spki, sig, prehash), SignatureScheme::Ecdsa(Curve::P256, d))
}

/// P-384 over a prehash computed with `d`.
pub open spec fn p384_prehash_outcome(d: DigestAlgorithm, prehash: Seq<u8>, sig: Seq<u8>, spki: Seq<u8>) -> Result<(), TrustError> {
    ecdsa_outcome(KeyKind::P384, spki, p384_key_decodes(spki), p384_signature_decodes(sig),
        p384_prehash_accepted(spki, sig, prehash), SignatureScheme::Ecdsa(Curve::P384, d))
}

/// P-521 over a prehash computed with `d`.
pub open spec fn p521_prehash_outcome(d: DigestAlgorithm, prehash: Seq<u8>, sig: Seq<u8>, spki: Seq<u8>) -> Result<(), TrustError> {
    ecdsa_outcome(KeyKind::P521, spki, p521_key_decodes(spki), p521_signature_decodes(sig),
        p521_prehash_accepted(spki, sig, prehash), SignatureScheme::Ecdsa(Curve::P521, d))
}

/// The SHA-1 digest of `tbs` left-padded with zeros to the 48 bytes of a
/// P-384 field element (the same integer, in a prehash the `ecdsa` crate
/// accepts for P-384).
pub open spec fn p384_sha1_prehash(tbs: Seq<u8>) -> Seq<u8> {
    Seq::new(28, |i: int| 0u8) + sha1_digest(tbs)
}

/// The SHA-256 digest of `tbs` left-padded with zeros to the 66 bytes of a
/// P-521 field element.
pub open spec fn p521_sha256_prehash(tbs: Seq<u8>) -> Seq<u8> {
    Seq::new(34, |i: int| 0u8) + sha256_digest(tbs)
}

/// The outcome of verifying an Ed25519 signature: the SPKI must decode, its
/// key bytes must be an Ed25519 key, the signature must be 64 bytes, and
/// then it must verify.
pub open spec fn ed25519_outcome(tbs: Seq<u8>, sig: Seq<u8>, spki: Seq<u8>) -> Result<(), TrustError> {
    match spki_fields(spki) {
        None => failed(Failure::SpkiDecode),
        Some(fields) => {
            let key = fields.2;
            if !ed25519_key_decodes(key) {
                failed(Failure::KeyDecode(KeyKind::Ed25519))
            } else if sig.len() != 64 {
                failed(Failure::SignatureDecode(KeyKind::Ed25519))
            } else if ed25519_signature_accepted(key, tbs, sig) {
                Ok(())
            } else {
                failed(Failure::SignatureInvalid(SignatureScheme::Ed25519))
            }
        },
    }
}

/// The named curve of an EC SubjectPublicKeyInfo: its algorithm must be
/// id-ecPublicKey and its parameters an OID naming P-256, P-384 or P-521.
pub open spec fn ec_named_curve_outcome(spki: Seq<u8>) -> Result<Curve, TrustError> {
    match spki_fields(spki) {
        None => failed(Failure::SpkiDecode),
        Some(fields) => {
            if fields.0 != OID_EC_PUBLIC_KEY@ {
                failed(Failure::KeyDecode(KeyKind::Ec))
            } else {
                match fields.1 {
                    Some(params) => {
                        if params.0 != 0x06u8 {
                            failed(Failure::KeyDecode(KeyKind::Ec))
                        } else if params.1 == OID_SECP256R1@ {
                            Ok(Curve::P256)
                        } else if params.1 == OID_SECP384R1@ {
                            Ok(Curve::P384)
                        } else if params.1 == OID_SECP521R1@ {
                            Ok(Curve::P521)
                        } else {
                            failed(Failure::UnknownCurve)
                        }
                    },
                    None => failed(Failure::KeyDecode(KeyKind::Ec)),
                }
            }
        },
    }
}

/// The outcome of an ECDSA verification bound to the key's curve and the
/// declared digest `d`: only the accepted (curve, digest) pairings verify.
pub open spec fn ecdsa_bound_outcome(d: DigestAlgorithm, tbs: Seq<u8>, sig: Seq<u8>, spki: Seq<u8>) -> Result<(), TrustError> {
    match ec_named_curve_outcome(spki) {
        Err(e) => Err(e),
        Ok(curve) => match (curve, d) {
            (Curve::P256, DigestAlgorithm::Sha256) => p256_outcome(tbs, sig, spki),
            (Curve::P384, DigestAlgorithm::Sha384) => p384_outcome(tbs, sig, spki),
            (Curve::P521, DigestAlgorithm::Sha512) =>
                p521_prehash_outcome(DigestAlgorithm::Sha512, sha512_digest(tbs), sig, spki),
            (Curve::P521, DigestAlgorithm::Sha256) =>
                p521_prehash_outcome(DigestAlgorithm::Sha256, p521_sha256_prehash(tbs), sig, spki),
            (Curve::P521, DigestAlgorithm::Sha384) =>
                p521_prehash_outcome(DigestAlgorithm::Sha384, sha384_digest(tbs), sig, spki),
            (Curve::P256, DigestAlgorithm::Sha1) =>
                p256_prehash_outcome(DigestAlgorithm::Sha1, sha1_digest(tbs), sig, spki),
            (Curve::P384, DigestAlgorithm::Sha1) =>
                p384_prehash_outcome(DigestAlgorithm::Sha1, p384_sha1_prehash(tbs), sig, spki),
            _ => failed(Failure::CurveDigestMismatch(curve, d)),
        },
    }
}

/// Whether `spki_der` is a DER SubjectPublicKeyInfo.
fn spki_decodes(spki_der: &[u8]) -> (res: bool)
    ensures
        res == (spki_fields(spki_der@) is Some),
{
    decode_spki(spki_der).is_ok()
}

/// The digest `d` of `data`.
fn hash(d: DigestAlgorithm, data: &[u8]) -> (res: Vec<u8>)
    ensures
        res@ == spec_hash(d, data@),
        res@.len() == spec_output_len(d),
{
    match d {
        DigestAlgorithm::Md5 => md5(data),
        DigestAlgorithm::Sha1 => sha1(data),
        DigestAlgorithm::Sha224 => sha224(data),
        DigestAlgorithm::Sha256 => sha256(data),
        DigestAlgorithm::Sha384 => sha384(data),
        DigestAlgorithm::Sha512 => sha512(data),
    }
}

/// No salt length but `salt` lets the key of `spki` accept `sig` under PSS
/// with `d` over `hashed`.
pub open spec fn pss_salt_unique(spki: Seq<u8>, d: DigestAlgorithm, salt: usize, hashed: Seq<u8>, sig: Seq<u8>) -> bool {
    forall|other: usize| other != salt && other + spec_output_len(d) + 2 <= usize::MAX
        ==> !#[trigger] rsa_signature_accepted(spki, RsaPadding::Pss(d, other), hashed, sig)
}

/// A PSS signature verifies over `tbs` with no salt length but `salt`.
pub open spec fn pss_outcome_salt_unique(d: DigestAlgorithm, salt: usize, tbs: Seq<u8>, sig: Seq<u8>, spki: Seq<u8>) -> bool {
    forall|other: usize| other != salt && other + spec_output_len(d) + 2 <= usize::MAX
        ==> (#[trigger] rsa_outcome(RsaPadding::Pss(d, other), tbs, sig, spki)) is Err
}

/// Verifies an RSA signature over the digest `hashed` under `padding`.
fn rsa_verify(key: &Decoded<rsa::RsaPublicKey>, padding: RsaPadding, hashed: &[u8], sig: &[u8]) -> (res: bool)
    requires
        padding matches RsaPadding::Pss(d, salt) ==> salt + spec_output_len(d) + 2 <= usize::MAX,
    ensures
        res == rsa_signature_accepted(key@, padding, hashed@, sig@),
        res ==> (padding matches RsaPadding::Pss(d, salt) ==> pss_salt_unique(key@, d, salt, hashed@, sig@)),
{
    let r = match padding {
        RsaPadding::Pkcs1v15(DigestAlgorithm::Md5) => verify_pkcs1v15_md5(key, hashed, sig),
        RsaPadding::Pkcs1v15(DigestAlgorithm::Sha1) => verify_pkcs1v15_sha1(key, hashed, sig),
        RsaPadding::Pkcs1v15(DigestAlgorithm::Sha224) => verify_pkcs1v15_sha224(key, hashed, sig),
        RsaPadding::Pkcs1v15(DigestAlgorithm::Sha256) => verify_pkcs1v15_sha256(key, hashed, sig),
        RsaPadding::Pkcs1v15(DigestAlgorithm::Sha384) => verify_pkcs1v15_sha384(key, hashed, sig),
        RsaPadding::Pkcs1v15(DigestAlgorithm::Sha512) => verify_pkcs1v15_sha512(key, hashed, sig),
        RsaPadding::Pss(DigestAlgorithm::Md5, salt) => verify_pss_md5(key, salt, hashed, sig),
        RsaPadding::Pss(DigestAlgorithm::Sha1, salt) => verify_pss_sha1(key, salt, hashed, sig),
        RsaPadding::Pss(DigestAlgorithm::Sha224, salt) => verify_pss_sha224(key, salt, hashed, sig),
        RsaPadding::Pss(DigestAlgorithm::Sha256, salt) => verify_pss_sha256(key, salt, hashed, sig),
        RsaPadding::Pss(DigestAlgorithm::Sha384, salt) => verify_pss_sha384(key, salt, hashed, sig),
        RsaPadding::Pss(DigestAlgorithm::Sha512, salt) => verify_pss_sha512(key, salt, hashed, sig),
    };
    r.is_ok()
}

/// Verifies an RSA signature over `tbs` with the key of `spki_der`.
fn verify_rsa(padding: RsaPadding, tbs: &[u8], sig: &[u8], spki_der: &[u8]) -> (res: Result<(), TrustError>)
    requires
        padding matches RsaPadding::Pss(d, salt) ==> salt + spec_output_len(d) + 2 <= usize::MAX,
    ensures
        res == rsa_outcome(padding, tbs@, sig@, spki_der@),
        res is Ok ==> (padding matches RsaPadding::Pss(d, salt) ==> pss_outcome_salt_unique(d, salt, tbs@, sig@, spki_der@)),
{
    if !spki_decodes(spki_der) {
        return Err(TrustError::SignatureVerification(Failure::SpkiDecode));
    }
    let key = match decode_rsa_public_key(spki_der) {
        Ok(k) => k,
        Err(_) => return Err(TrustError::SignatureVerification(Failure::KeyDecode(KeyKind::Rsa))),
    };
    let digest = match padding {
        RsaPadding::Pkcs1v15(d) => d,
        RsaPadding::Pss(d, _) => d,
    };
    let hashed = hash(digest, tbs);
    if rsa_verify(&key, padding, hashed.as_slice(), sig) {
        proof {
            if let RsaPadding::Pss(d, salt) = padding {
                assert forall|other: usize| other != salt && other + spec_output_len(d) + 2 <= usize::MAX
                    implies (#[trigger] rsa_outcome(RsaPadding::Pss(d, other), tbs@, sig@, spki_der@)) is Err by {
                    assert(!rsa_signature_accepted(spki_der@, RsaPadding::Pss(d, other), hashed@, sig@));
                }
            }
        }
        Ok(())
    } else {
        let scheme = match padding {
            RsaPadding::Pkcs1v15(d) => SignatureScheme::RsaPkcs1v15(d),
            RsaPadding::Pss(d, _) => SignatureScheme::RsaPss(d),
        };
        Err(TrustError::SignatureVerification(Failure::SignatureInvalid(scheme)))
    }
}

/// Verify an RSA PKCS#1 v1.5 signature over `tbs`, with the digest `digest`,
/// using the given SPKI.
pub fn verify_rsa_signature(digest: DigestAlgorithm, tbs: &[u8], sig: &[u8], spki_der: &[u8]) -> (res: Result<(), TrustError>)
    ensures
        res == rsa_outcome(RsaPadding::Pkcs1v15(digest), tbs@, sig@, spki_der@),
{
    verify_rsa(RsaPadding::Pkcs1v15(digest), tbs, sig, spki_der)
}

/// Verify an RSA-PSS (RSASSA-PSS) signature over `tbs` using the given SPKI,
/// with the default salt length (the digest output size). Callers that have
/// decoded the `RSASSA-PSS-params` saltLength should use
/// [`verify_rsa_pss_signature_with_salt`] instead, since PSS verification is
/// salt-length sensitive.
pub fn verify_rsa_pss_signature(digest: DigestAlgorithm, tbs: &[u8], sig: &[u8], spki_der: &[u8]) -> (res: Result<(), TrustError>)
    ensures
        res == rsa_outcome(RsaPadding::Pss(digest, spec_output_len(digest) as usize), tbs@, sig@, spki_der@),
{
    verify_rsa_pss_signature_with_salt(digest, tbs, sig, spki_der, digest.output_len())
}

/// Verify an RSA-PSS (RSASSA-PSS) signature over `tbs` with an explicit salt
/// length. The mask generation function is MGF1 keyed to the same digest;
/// callers are responsible for rejecting parameters that disagree.
pub fn verify_rsa_pss_signature_with_salt(digest: DigestAlgorithm, tbs: &[u8], sig: &[u8], spki_der: &[u8], salt_len: usize) -> (res: Result<(), TrustError>)
    requires
        salt_len + spec_output_len(digest) + 2 <= usize::MAX,
    ensures
        res == rsa_outcome(RsaPadding::Pss(digest, salt_len), tbs@, sig@, spki_der@),
        res is Ok ==> pss_outcome_salt_unique(digest, salt_len, tbs@, sig@, spki_der@),
{
    verify_rsa(RsaPadding::Pss(digest, salt_len), tbs, sig, spki_der)
}

/// Verify an ECDSA P-256 (SHA-256) signature.
pub fn verify_ecdsa_p256_signature(tbs: &[u8], sig: &[u8], spki_der: &[u8]) -> (res: Result<(), TrustError>)
    ensures
        res == p256_outcome(tbs@, sig@, spki_der@),
{
    if !spki_decodes(spki_der) {
        return Err(TrustError::SignatureVerification(Failure::SpkiDecode));
    }
    let key = match decode_p256_key(spki_der) {
        Ok(k) => k,
        Err(_) => return Err(TrustError::SignatureVerification(Failure::KeyDecode(KeyKind::P256))),
    };
    let signature = match decode_p256_signature(sig) {
        Ok(s) => s,
        Err(_) => return Err(TrustError::SignatureVerification(Failure::SignatureDecode(KeyKind::P256))),
    };
    match verify_p256_message(&key, tbs, &signature) {
        Ok(()) => Ok(()),
        Err(_) => Err(TrustError::SignatureVerification(
            Failure::SignatureInvalid(SignatureScheme::Ecdsa(Curve::P256, DigestAlgorithm::Sha256)),
        )),
    }
}

/// Verify an ECDSA P-384 (SHA-384) signature.
pub fn verify_ecdsa_p384_signature(tbs: &[u8], sig: &[u8], spki_der: &[u8]) -> (res: Result<(), TrustError>)
    ensures
        res == p384_outcome(tbs@, sig@, spki_der@),
{
    if !spki_decodes(spki_der) {
        return Err(TrustError::SignatureVerification(Failure::SpkiDecode));
    }
    let key = match decode_p384_key(spki_der) {
        Ok(k) => k,
        Err(_) => return Err(TrustError::SignatureVerification(Failure::KeyDecode(KeyKind::P384))),
    };
    let signature = match decode_p384_signature(sig) {
        Ok(s) => s,
        Err(_) => return Err(TrustError::SignatureVerification(Failure::SignatureDecode(KeyKind::P384))),
    };
    match verify_p384_message(&key, tbs, &signature) {
        Ok(()) => Ok(()),
        Err(_) => Err(TrustError::SignatureVerification(
            Failure::SignatureInvalid(SignatureScheme::Ecdsa(Curve::P384, DigestAlgorithm::Sha384)),
        )),
    }
}

/// Verifies a P-521 signature over a prehash of `tbs` computed with `d`
/// (`Sha256`, `Sha384` or `Sha512`; a SHA-256 digest is left-padded with
/// zeros to the field size, since the `ecdsa` crate wants at least half a
/// field element).
fn verify_p521_with(d: DigestAlgorithm, tbs: &[u8], sig: &[u8], spki_der: &[u8]) -> (res: Result<(), TrustError>)
    requires
        d == DigestAlgorithm::Sha256 || d == DigestAlgorithm::Sha384 || d == DigestAlgorithm::Sha512,
    ensures
        res == p521_prehash_outcome(d, p521_prehash(d, tbs@), sig@, spki_der@),
{
    if !spki_decodes(spki_der) {
        return Err(TrustError::SignatureVerification(Failure::SpkiDecode));
    }
    let key = match decode_p521_key(spki_der) {
        Ok(k) => k,
        Err(_) => return Err(TrustError::SignatureVerification(Failure::KeyDecode(KeyKind::P521))),
    };
    let signature = match decode_p521_signature(sig) {
        Ok(s) => s,
        Err(_) => return Err(TrustError::SignatureVerification(Failure::SignatureDecode(KeyKind::P521))),
    };
    let prehash = if d == DigestAlgorithm::Sha256 {
        let h = sha256(tbs);
        pad_to_field(&h, 66)
    } else {
        hash(d, tbs)
    };
    match verify_p521_prehash(&key, prehash.as_slice(), &signature) {
        Ok(()) => Ok(()),
        Err(_) => Err(TrustError::SignatureVerification(
            Failure::SignatureInvalid(SignatureScheme::Ecdsa(Curve::P521, d)),
        )),
    }
}

/// The prehash that P-521 verification uses for a digest `d` of `tbs`.
pub open spec fn p521_prehash(d: DigestAlgorithm, tbs: Seq<u8>) -> Seq<u8> {
    if d == DigestAlgorithm::Sha256 {
        p521_sha256_prehash(tbs)
    } else {
        spec_hash(d, tbs)
    }
}

/// Left-pads a digest with zeros to `field_len` bytes: the same integer, as
/// a prehash of a field element's size.
fn pad_to_field(h: &Vec<u8>, field_len: usize) -> (res: Vec<u8>)
    requires
        h@.len() <= field_len,
    ensures
        res@ == Seq::new((field_len - h@.len()) as nat, |i: int| 0u8) + h@,
{
    let zeros = field_len - h.len();
    let mut padded: Vec<u8> = Vec::new();
    let mut i: usize = 0;
    while i < zeros
        invariant
            i <= zeros,
            padded@ == Seq::new(i as nat, |k: int| 0u8),
        decreases zeros - i,
    {
        padded.push(0u8);
        i = i + 1;
    }
    let mut j: usize = 0;
    while j < h.len()
        invariant
            j <= h@.len(),
            padded@ == Seq::new(zeros as nat, |k: int| 0u8) + h@.subrange(0, j as int),
        decreases h@.len() - j,
    {
        padded.push(h[j]);
        assert(h@.subrange(0, j + 1) == h@.subrange(0, j as int).push(h@[j as int]));
        j = j + 1;
    }
    assert(h@.subrange(0, h@.len() as int) == h@);
    padded
}

/// Verify an ECDSA P-521 (SHA-512) signature.
pub fn verify_ecdsa_p521_signature(tbs: &[u8], sig: &[u8], spki_der: &[u8]) -> (res: Result<(), TrustError>)
    ensures
        res == p521_prehash_outcome(DigestAlgorithm::Sha512, sha512_digest(tbs@), sig@, spki_der@),
{
    verify_p521_with(DigestAlgorithm::Sha512, tbs, sig, spki_der)
}

/// Verify an ECDSA P-521 signature where the signing algorithm specified
/// SHA-256 (e.g. a self-signed certificate with `ecdsa-with-SHA256` but a
/// P-521 key). The `ecdsa` crate wants a prehash of at least half the field
/// size (33 bytes), so the 32-byte digest is left-padded to the 66-byte field
/// size.
pub fn verify_ecdsa_p521_sha256_signature(tbs: &[u8], sig: &[u8], spki_der: &[u8]) -> (res: Result<(), TrustError>)
    ensures
        res == p521_prehash_outcome(DigestAlgorithm::Sha256, p521_sha256_prehash(tbs@), sig@, spki_der@),
{
    verify_p521_with(DigestAlgorithm::Sha256, tbs, sig, spki_der)
}

/// Verify an ECDSA P-521 signature where the signing algorithm specified
/// SHA-384.
pub fn verify_ecdsa_p521_sha384_signature(tbs: &[u8], sig: &[u8], spki_der: &[u8]) -> (res: Result<(), TrustError>)
    ensures
        res == p521_prehash_outcome(DigestAlgorithm::Sha384, sha384_digest(tbs@), sig@, spki_der@),
{
    verify_p521_with(DigestAlgorithm::Sha384, tbs, sig, spki_der)
}

/// Verify an ECDSA P-256 (SHA-1) signature (legacy).
pub fn verify_ecdsa_p256_sha1_signature(tbs: &[u8], sig: &[u8], spki_der: &[u8]) -> (res: Result<(), TrustError>)
    ensures
        res == p256_prehash_outcome(DigestAlgorithm::Sha1, sha1_digest(tbs@), sig@, spki_der@),
{
    if !spki_decodes(spki_der) {
        return Err(TrustError::SignatureVerification(Failure::SpkiDecode));
    }
    let key = match decode_p256_key(spki_der) {
        Ok(k) => k,
        Err(_) => return Err(TrustError::SignatureVerification(Failure::KeyDecode(KeyKind::P256))),
    };
    let signature = match decode_p256_signature(sig) {
        Ok(s) => s,
        Err(_) => return Err(TrustError::SignatureVerification(Failure::SignatureDecode(KeyKind::P256))),
    };
    let h = sha1(tbs);
    match verify_p256_prehash(&key, h.as_slice(), &signature) {
        Ok(()) => Ok(()),
        Err(_) => Err(TrustError::SignatureVerification(
            Failure::SignatureInvalid(SignatureScheme::Ecdsa(Curve::P256, DigestAlgorithm::Sha1)),
        )),
    }
}

/// Verify an ECDSA P-384 (SHA-1) signature (legacy). The `ecdsa` crate
/// rejects a prehash shorter than half the 48-byte field, so the 20-byte
/// digest is left-padded with zeros to the field size (the same integer).
pub fn verify_ecdsa_p384_sha1_signature(tbs: &[u8], sig: &[u8], spki_der: &[u8]) -> (res: Result<(), TrustError>)
    ensures
        res == p384_prehash_outcome(DigestAlgorithm::Sha1, p384_sha1_prehash(tbs@), sig@, spki_der@),
{
    if !spki_decodes(spki_der) {
        return Err(TrustError::SignatureVerification(Failure::SpkiDecode));
    }
    let key = match decode_p384_key(spki_der) {
        Ok(k) => k,
        Err(_) => return Err(TrustError::SignatureVerification(Failure::KeyDecode(KeyKind::P384))),
    };
    let signature = match decode_p384_signature(sig) {
        Ok(s) => s,
        Err(_) => return Err(TrustError::SignatureVerification(Failure::SignatureDecode(KeyKind::P384))),
    };
    let h = sha1(tbs);
    let prehash = pad_to_field(&h, 48);
    match verify_p384_prehash(&key, prehash.as_slice(), &signature) {
        Ok(()) => Ok(()),
        Err(_) => Err(TrustError::SignatureVerification(
            Failure::SignatureInvalid(SignatureScheme::Ecdsa(Curve::P384, DigestAlgorithm::Sha1)),
        )),
    }
}

/// Verify an Ed25519 signature.
pub fn verify_ed25519_signature(tbs: &[u8], sig: &[u8], spki_der: &[u8]) -> (res: Result<(), TrustError>)
    ensures
        res == ed25519_outcome(tbs@, sig@, spki_der@),
{
    let fields = match decode_spki(spki_der) {
        Ok(f) => f,
        Err(_) => return Err(TrustError::SignatureVerification(Failure::SpkiDecode)),
    };
    let key = match decode_ed25519_key(fields.subject_public_key.as_slice()) {
        Ok(k) => k,
        Err(_) => return Err(TrustError::SignatureVerification(Failure::KeyDecode(KeyKind::Ed25519))),
    };
    let signature = match decode_ed25519_signature(sig) {
        Ok(s) => s,
        Err(_) => return Err(TrustError::SignatureVerification(Failure::SignatureDecode(KeyKind::Ed25519))),
    };
    match verify_ed25519(&key, tbs, &signature) {
        Ok(()) => Ok(()),
        Err(_) => Err(TrustError::SignatureVerification(Failure::SignatureInvalid(SignatureScheme::Ed25519))),
    }
}

/// The named curve of an EC SubjectPublicKeyInfo. Rejects an SPKI that does
/// not decode, one whose algorithm is not id-ecPublicKey or whose parameters
/// are not a curve OID, and a curve other than P-256, P-384 and P-521; every
/// refusal is a verification failure.
pub fn ec_named_curve(spki_der: &[u8]) -> (res: Result<Curve, TrustError>)
    ensures
        res == ec_named_curve_outcome(spki_der@),
{
    let fields = match decode_spki(spki_der) {
        Ok(f) => f,
        Err(_) => return Err(TrustError::SignatureVerification(Failure::SpkiDecode)),
    };
    if !fields.algorithm.is(&OID_EC_PUBLIC_KEY) {
        return Err(TrustError::SignatureVerification(Failure::KeyDecode(KeyKind::Ec)));
    }
    match &fields.parameters {
        Some((tag, value)) => {
            if *tag != 0x06u8 {
                Err(TrustError::SignatureVerification(Failure::KeyDecode(KeyKind::Ec)))
            } else if bytes_equal(value.as_slice(), &OID_SECP256R1) {
                Ok(Curve::P256)
            } else if bytes_equal(value.as_slice(), &OID_SECP384R1) {
                Ok(Curve::P384)
            } else if bytes_equal(value.as_slice(), &OID_SECP521R1) {
                Ok(Curve::P521)
            } else {
                Err(TrustError::SignatureVerification(Failure::UnknownCurve))
            }
        },
        None => Err(TrustError::SignatureVerification(Failure::KeyDecode(KeyKind::Ec))),
    }
}

/// Verify an ECDSA signature bound to one (curve, digest) pairing: the curve
/// is read from the key, the digest `d` comes from the signature algorithm,
/// and only the pairings P-256/SHA-256, P-384/SHA-384, P-521/SHA-512,
/// P-521/SHA-256, P-521/SHA-384 and the legacy P-256/SHA-1 and P-384/SHA-1
/// are verified; any other pairing fails verification.
pub fn verify_ecdsa_bound(tbs: &[u8], sig: &[u8], spki_der: &[u8], d: DigestAlgorithm) -> (res: Result<(), TrustError>)
    ensures
        res == ecdsa_bound_outcome(d, tbs@, sig@, spki_der@),
{
    let curve = match ec_named_curve(spki_der) {
        Ok(c) => c,
        Err(e) => return Err(e),
    };
    match (curve, d) {
        (Curve::P256, DigestAlgorithm::Sha256) => verify_ecdsa_p256_signature(tbs, sig, spki_der),
        (Curve::P384, DigestAlgorithm::Sha384) => verify_ecdsa_p384_signature(tbs, sig, spki_der),
        (Curve::P521, DigestAlgorithm::Sha512) => verify_ecdsa_p521_signature(tbs, sig, spki_der),
        (Curve::P521, DigestAlgorithm::Sha256) => verify_ecdsa_p521_sha256_signature(tbs, sig, spki_der),
        (Curve::P521, DigestAlgorithm::Sha384) => verify_ecdsa_p521_sha384_signature(tbs, sig, spki_der),
        (Curve::P256, DigestAlgorithm::Sha1) => verify_ecdsa_p256_sha1_signature(tbs, sig, spki_der),
        (Curve::P384, DigestAlgorithm::Sha1) => verify_ecdsa_p384_sha1_signature(tbs, sig, spki_der),
        _ => Err(TrustError::SignatureVerification(Failure::CurveDigestMismatch(curve, d))),
    }
}

/// RSASSA-PSS identified by the OID alone: the digest is not known, so
/// SHA-256, SHA-384 and SHA-512 are tried in turn, each with its default salt
/// length; the first that verifies wins, else the last error stands.
pub open spec fn pss_by_oid_outcome(tbs: Seq<u8>, sig: Seq<u8>, spki: Seq<u8>) -> Result<(), TrustError> {
    let r256 = rsa_outcome(RsaPadding::Pss(DigestAlgorithm::Sha256, 32), tbs, sig, spki);
    let r384 = rsa_outcome(RsaPadding::Pss(DigestAlgorithm::Sha384, 48), tbs, sig, spki);
    let r512 = rsa_outcome(RsaPadding::Pss(DigestAlgorithm::Sha512, 64), tbs, sig, spki);
    if r256 is Ok {
        r256
    } else if r384 is Ok {
        r384
    } else {
        r512
    }
}

/// The outcome of [`verify_signature_by_oid`]: the signature algorithm OID
/// selects the verifier; any other OID is unsupported.
pub open spec fn by_oid_outcome(tbs: Seq<u8>, sig: Seq<u8>, spki: Seq<u8>, oid: Seq<u8>) -> Result<(), TrustError> {
    if oid == OID_MD5_WITH_RSA@ {
        rsa_outcome(RsaPadding::Pkcs1v15(DigestAlgorithm::Md5), tbs, sig, spki)
    } else if oid == OID_SHA1_WITH_RSA@ {
        rsa_outcome(RsaPadding::Pkcs1v15(DigestAlgorithm::Sha1), tbs, sig, spki)
    } else if oid == OID_SHA224_WITH_RSA@ {
        rsa_outcome(RsaPadding::Pkcs1v15(DigestAlgorithm::Sha224), tbs, sig, spki)
    } else if oid == OID_SHA256_WITH_RSA@ {
        rsa_outcome(RsaPadding::Pkcs1v15(DigestAlgorithm::Sha256), tbs, sig, spki)
    } else if oid == OID_SHA384_WITH_RSA@ {
        rsa_outcome(RsaPadding::Pkcs1v15(DigestAlgorithm::Sha384), tbs, sig, spki)
    } else if oid == OID_SHA512_WITH_RSA@ {
        rsa_outcome(RsaPadding::Pkcs1v15(DigestAlgorithm::Sha512), tbs, sig, spki)
    } else if oid == OID_RSASSA_PSS@ {
        pss_by_oid_outcome(tbs, sig, spki)
    } else if oid == OID_ECDSA_WITH_SHA1@ {
        ecdsa_bound_outcome(DigestAlgorithm::Sha1, tbs, sig, spki)
    } else if oid == OID_ECDSA_WITH_SHA256@ {
        ecdsa_bound_outcome(DigestAlgorithm::Sha256, tbs, sig, spki)
    } else if oid == OID_ECDSA_WITH_SHA384@ {
        ecdsa_bound_outcome(DigestAlgorithm::Sha384, tbs, sig, spki)
    } else if oid == OID_ECDSA_WITH_SHA512@ {
        ecdsa_bound_outcome(DigestAlgorithm::Sha512, tbs, sig, spki)
    } else if oid == OID_ED25519@ {
        ed25519_outcome(tbs, sig, spki)
    } else {
        unsupported(Unsupported::SignatureAlgorithm)
    }
}

/// Verify a raw signature over `tbs_bytes` using the signer's SPKI (DER) and
/// the given signature algorithm OID.
///
/// | OID | Algorithm |
/// |-----|-----------|
/// | `1.2.840.113549.1.1.4`  | MD5 with RSA (legacy) |
/// | `1.2.840.113549.1.1.5`  | SHA-1 with RSA (legacy) |
/// | `1.2.840.113549.1.1.11` | SHA-256 with RSA |
/// | `1.2.840.113549.1.1.12` | SHA-384 with RSA |
/// | `1.2.840.113549.1.1.13` | SHA-512 with RSA |
/// | `1.2.840.113549.1.1.14` | SHA-224 with RSA |
/// | `1.2.840.113549.1.1.10` | RSASSA-PSS (tries SHA-256/384/512) |
/// | `1.2.840.10045.4.1`     | ECDSA with SHA-1 (legacy) |
/// | `1.2.840.10045.4.3.2`   | ECDSA with SHA-256 |
/// | `1.2.840.10045.4.3.3`   | ECDSA with SHA-384 |
/// | `1.2.840.10045.4.3.4`   | ECDSA with SHA-512 |
/// | `1.3.101.112`           | Ed25519 |
pub fn verify_signature_by_oid(tbs_bytes: &[u8], signature_bytes: &[u8], spki_der: &[u8], sig_alg_oid: &Oid) -> (res: Result<(), TrustError>)
    ensures
        res == by_oid_outcome(tbs_bytes@, signature_bytes@, spki_der@, sig_alg_oid@),
{
    let (tbs, sig, spki) = (tbs_bytes, signature_bytes, spki_der);
    if sig_alg_oid.is(&OID_MD5_WITH_RSA) {
        verify_rsa_signature(DigestAlgorithm::Md5, tbs, sig, spki)
    } else if sig_alg_oid.is(&OID_SHA1_WITH_RSA) {
        verify_rsa_signature(DigestAlgorithm::Sha1, tbs, sig, spki)
    } else if sig_alg_oid.is(&OID_SHA224_WITH_RSA) {
        verify_rsa_signature(DigestAlgorithm::Sha224, tbs, sig, spki)
    } else if sig_alg_oid.is(&OID_SHA256_WITH_RSA) {
        verify_rsa_signature(DigestAlgorithm::Sha256, tbs, sig, spki)
    } else if sig_alg_oid.is(&OID_SHA384_WITH_RSA) {
        verify_rsa_signature(DigestAlgorithm::Sha384, tbs, sig, spki)
    } else if sig_alg_oid.is(&OID_SHA512_WITH_RSA) {
        verify_rsa_signature(DigestAlgorithm::Sha512, tbs, sig, spki)
    } else if sig_alg_oid.is(&OID_RSASSA_PSS) {
        // The parameters are not known here: try SHA-256, then SHA-384, then
        // SHA-512, each with the default salt length.
        let r256 = verify_rsa_pss_signature(DigestAlgorithm::Sha256, tbs, sig, spki);
        if r256.is_ok() {
            return r256;
        }
        let r384 = verify_rsa_pss_signature(DigestAlgorithm::Sha384, tbs, sig, spki);
        if r384.is_ok() {
            return r384;
        }
        verify_rsa_pss_signature(DigestAlgorithm::Sha512, tbs, sig, spki)
    } else if sig_alg_oid.is(&OID_ECDSA_WITH_SHA1) {
        verify_ecdsa_bound(tbs, sig, spki, DigestAlgorithm::Sha1)
    } else if sig_alg_oid.is(&OID_ECDSA_WITH_SHA256) {
        verify_ecdsa_bound(tbs, sig, spki, DigestAlgorithm::Sha256)
    } else if sig_alg_oid.is(&OID_ECDSA_WITH_SHA384) {
        verify_ecdsa_bound(tbs, sig, spki, DigestAlgorithm::Sha384)
    } else if sig_alg_oid.is(&OID_ECDSA_WITH_SHA512) {
        verify_ecdsa_bound(tbs, sig, spki, DigestAlgorithm::Sha512)
    } else if sig_alg_oid.is(&OID_ED25519) {
        verify_ed25519_signature(tbs, sig, spki)
    } else {
        Err(TrustError::UnsupportedAlgorithm(Unsupported::SignatureAlgorithm))
    }
}

/// The outcome of [`verify_rsa_pss_signature_strict`] on the DER parameters
/// `params`: they must be present and decode; the hash must be a known
/// digest; the mask generation function must be MGF1 over that same hash;
/// the digest must be SHA-256, SHA-384 or SHA-512; and the signature must
/// verify with the declared salt length. On success it is the digest.
pub open spec fn pss_strict_outcome(tbs: Seq<u8>, sig: Seq<u8>, spki: Seq<u8>, params: Option<Seq<u8>>) -> Result<DigestAlgorithm, TrustError> {
    match params {
        None => unsupported(Unsupported::PssParametersMissing),
        Some(der) => match rsa_pss_params_decoding(der) {
            None => failed(Failure::PssParametersDecode),
            Some(p) => {
                let (hash_oid, mask_gen_oid, mask_gen_hash, salt_len) = p;
                match spec_digest_from_oid(hash_oid) {
                    None => unsupported(Unsupported::PssHashAlgorithm),
                    Some(d) => {
                        if mask_gen_oid != OID_MGF1@ {
                            unsupported(Unsupported::PssMaskGenAlgorithm)
                        } else if mask_gen_hash != Some(hash_oid) {
                            unsupported(Unsupported::PssMaskGenHash)
                        } else if d == DigestAlgorithm::Sha256 || d == DigestAlgorithm::Sha384
                            || d == DigestAlgorithm::Sha512 {
                            match rsa_outcome(RsaPadding::Pss(d, salt_len as usize), tbs, sig, spki) {
                                Ok(()) => Ok(d),
                                Err(e) => Err(e),
                            }
                        } else {
                            unsupported(Unsupported::PssDigest(d))
                        }
                    },
                }
            },
        },
    }
}

/// Verify an RSASSA-PSS signature strictly according to its
/// `RSASSA-PSS-params` (RFC 4055, given as DER in `parameters`), returning
/// the digest the parameters selected.
///
/// For PSS the hash, MGF1 hash, salt length, and trailer field are part of the
/// algorithm definition and live in the signature `AlgorithmIdentifier`
/// parameters, not in the OID. This enforces:
/// - the parameters are present (a bare PSS OID is rejected),
/// - the `hashAlgorithm` is one we support,
/// - `maskGenAlgorithm` is MGF1 keyed to that same hash,
/// - the declared `saltLength` is used (PSS verification is salt-length
///   sensitive).
///
/// `trailerField` can only decode to its single defined value (`0xBC`), so
/// decoding the parameters already rejects anything else.
pub fn verify_rsa_pss_signature_strict(tbs: &[u8], sig: &[u8], spki_der: &[u8], parameters: Option<&[u8]>) -> (res: Result<DigestAlgorithm, TrustError>)
    ensures
        res == pss_strict_outcome(tbs@, sig@, spki_der@, match parameters { Some(p) => Some(p@), None => None }),
        res matches Ok(d) ==> (parameters matches Some(p) && rsa_pss_params_decoding(p@) matches Some(dec)
            && pss_outcome_salt_unique(d, dec.3 as usize, tbs@, sig@, spki_der@)),
{
    let der = match parameters {
        Some(p) => p,
        None => return Err(TrustError::UnsupportedAlgorithm(Unsupported::PssParametersMissing)),
    };
    let params = match decode_rsa_pss_params(der) {
        Ok(p) => p,
        Err(_) => return Err(TrustError::SignatureVerification(Failure::PssParametersDecode)),
    };
    let hash = match DigestAlgorithm::from_oid(&params.hash) {
        Some(h) => h,
        None => return Err(TrustError::UnsupportedAlgorithm(Unsupported::PssHashAlgorithm)),
    };
    if !params.mask_gen.is(&OID_MGF1) {
        return Err(TrustError::UnsupportedAlgorithm(Unsupported::PssMaskGenAlgorithm));
    }
    let same_hash = match &params.mask_gen_hash {
        Some(h) => h.same_as(&params.hash),
        None => false,
    };
    if !same_hash {
        return Err(TrustError::UnsupportedAlgorithm(Unsupported::PssMaskGenHash));
    }
    let salt_len = params.salt_len as usize;
    match hash {
        DigestAlgorithm::Sha256 | DigestAlgorithm::Sha384 | DigestAlgorithm::Sha512 => {
            match verify_rsa_pss_signature_with_salt(hash, tbs, sig, spki_der, salt_len) {
                Ok(()) => Ok(hash),
                Err(e) => Err(e),
            }
        },
        other => Err(TrustError::UnsupportedAlgorithm(Unsupported::PssDigest(other))),
    }
}

/// The outcome of [`verify_signature_by_algid`] on the algorithm identifier
/// `alg` (OID, DER parameters).
pub open spec fn by_algid_outcome(tbs: Seq<u8>, sig: Seq<u8>, spki: Seq<u8>, alg: (Seq<u8>, Option<Seq<u8>>)) -> Result<(), TrustError> {
    if alg.0 == OID_RSASSA_PSS@ {
        match pss_strict_outcome(tbs, sig, spki, alg.1) {
            Ok(_) => Ok(()),
            Err(e) => Err(e),
        }
    } else {
        by_oid_outcome(tbs, sig, spki, alg.0)
    }
}

/// Verify a signature given the full signature `AlgorithmIdentifier`.
///
/// This is the parameter-aware entry point and should be preferred over
/// [`verify_signature_by_oid`] whenever the caller has the algorithm's
/// parameters. For RSASSA-PSS it decodes the `RSASSA-PSS-params` and verifies
/// strictly (hash, MGF1 hash, salt length) per RFC 4055; for every other
/// algorithm the hash is implied by the OID, so it delegates to
/// [`verify_signature_by_oid`].
pub fn verify_signature_by_algid(tbs_bytes: &[u8], signature_bytes: &[u8], spki_der: &[u8], sig_alg: &AlgorithmIdentifier) -> (res: Result<(), TrustError>)
    ensures
        res == by_algid_outcome(tbs_bytes@, signature_bytes@, spki_der@, sig_alg@),
        sig_alg@.0 == OID_RSASSA_PSS@ && res is Ok ==> (sig_alg@.1 matches Some(p)
            && rsa_pss_params_decoding(p) matches Some(dec) && spec_digest_from_oid(dec.0) matches Some(d)
            && pss_outcome_salt_unique(d, dec.3 as usize, tbs_bytes@, signature_bytes@, spki_der@)),
{
    if sig_alg.oid.is(&OID_RSASSA_PSS) {
        let parameters = match &sig_alg.parameters {
            Some(p) => Some(p.as_slice()),
            None => None,
        };
        match verify_rsa_pss_signature_strict(tbs_bytes, signature_bytes, spki_der, parameters) {
            Ok(_) => Ok(()),
            Err(e) => Err(e),
        }
    } else {
        verify_signature_by_oid(tbs_bytes, signature_bytes, spki_der, &sig_alg.oid)
    }
}

/// A decoded X.509 certificate; its view is its DER encoding.
pub struct Certificate {
    decoded: Decoded<X509Certificate>,
}

impl View for Certificate {
    type V = Seq<u8>;

    closed spec fn view(&self) -> Seq<u8> {
        self.decoded@
    }
}

impl Certificate {
    /// Decodes a DER X.509 certificate.
    pub fn from_der(der: &[u8]) -> (res: Result<Certificate, TrustError>)
        ensures
            res is Ok <==> certificate_decodes(der@),
            res matches Ok(c) ==> c@ == der@,
            res is Err ==> res == failed::<Certificate>(Failure::CertificateDecode),
    {
        match decode_certificate(der) {
            Ok(decoded) => Ok(Certificate { decoded }),
            Err(_) => Err(TrustError::SignatureVerification(Failure::CertificateDecode)),
        }
    }
}

/// The outcome of [`verify_certificate_signature`] for the certificate `cert`
/// and the issuer certificate `issuer` (both DER): the outer
/// `signatureAlgorithm` must equal the signed `tbsCertificate.signature`;
/// then the outer signature is verified over the encoded TBS with the
/// issuer's encoded SubjectPublicKeyInfo, under the outer algorithm (whose
/// parameters are re-encoded only for RSASSA-PSS, where they are read).
pub open spec fn certificate_outcome(cert: Seq<u8>, issuer: Seq<u8>) -> Result<(), TrustError> {
    if !certificate_algorithms_agree(cert) {
        failed(Failure::AlgorithmMismatch)
    } else {
        match tbs_certificate_encoding(cert) {
            None => failed(Failure::TbsEncode),
            Some(tbs) => match subject_public_key_info_encoding(issuer) {
                None => failed(Failure::SpkiEncode),
                Some(spki) => {
                    let oid = certificate_signature_algorithm_oid(cert);
                    let sig = certificate_signature_bits(cert);
                    if oid == OID_RSASSA_PSS@ {
                        match certificate_signature_parameters_encoding(cert) {
                            None => failed(Failure::AlgorithmEncode),
                            Some(params) => by_algid_outcome(tbs, sig, spki, (oid, params)),
                        }
                    } else {
                        by_oid_outcome(tbs, sig, spki, oid)
                    }
                },
            },
        }
    }
}

/// Verify a certificate's signature against its issuer's public key.
///
/// Rejects a certificate whose outer, unsigned `signatureAlgorithm` differs
/// from the signed `tbsCertificate.signature` (RFC 5280, section 4.1.1.2),
/// then encodes the TBS portion and checks the outer signature using
/// [`verify_signature_by_algid`] so that RSASSA-PSS parameters are honoured.
pub fn verify_certificate_signature(cert: &Certificate, issuer: &Certificate) -> (res: Result<(), TrustError>)
    ensures
        res == certificate_outcome(cert@, issuer@),
{
    if !signature_algorithms_agree(&cert.decoded) {
        return Err(TrustError::SignatureVerification(Failure::AlgorithmMismatch));
    }
    let tbs_bytes = match encode_tbs_certificate(&cert.decoded) {
        Ok(b) => b,
        Err(_) => return Err(TrustError::SignatureVerification(Failure::TbsEncode)),
    };
    let signature_bytes = signature_bits(&cert.decoded);
    let spki_der = match encode_subject_public_key_info(&issuer.decoded) {
        Ok(b) => b,
        Err(_) => return Err(TrustError::SignatureVerification(Failure::SpkiEncode)),
    };
    let oid = signature_algorithm_oid(&cert.decoded);
    if oid.is(&OID_RSASSA_PSS) {
        // Only the PSS parameters are read, so only they are re-encoded.
        let parameters = match encode_signature_algorithm_parameters(&cert.decoded) {
            Ok(p) => p,
            Err(_) => return Err(TrustError::SignatureVerification(Failure::AlgorithmEncode)),
        };
        let alg = AlgorithmIdentifier { oid, parameters };
        verify_signature_by_algid(tbs_bytes.as_slice(), signature_bytes.as_slice(), spki_der.as_slice(), &alg)
    } else {
        verify_signature_by_oid(tbs_bytes.as_slice(), signature_bytes.as_slice(), spki_der.as_slice(), &oid)
    }
}

} // verus!
