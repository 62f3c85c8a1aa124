//! Properties of signature verification that span several functions or all
//! inputs: what each verifier's outcome must be, stated directly over what
//! the cryptographic primitives accept (the digests, key decodings and
//! signature checks of `crate::backend`), and how the verifiers relate.

use vstd::prelude::*;
use crate::backend::rsa_sig::{rsa_pss_params_decoding, rsa_signature_accepted, RsaPadding};
use crate::crypto::algorithm::{
    spec_digest_from_oid, DigestAlgorithm, OID_ECDSA_WITH_SHA1, OID_ECDSA_WITH_SHA256,
    OID_ECDSA_WITH_SHA384, OID_ECDSA_WITH_SHA512, OID_ED25519, OID_MD5_WITH_RSA, OID_MGF1,
    OID_RSASSA_PSS, OID_SHA1_WITH_RSA, OID_SHA224_WITH_RSA, OID_SHA256_WITH_RSA,
    OID_SHA384_WITH_RSA, OID_SHA512_WITH_RSA,
};
use crate::crypto::verify::{
    by_algid_outcome, by_oid_outcome, certificate_outcome, ec_named_curve_outcome,
    ecdsa_bound_outcome, ed25519_outcome, pss_strict_outcome, rsa_outcome, spec_hash,
};
use crate::backend::certificate::{
    certificate_algorithms_agree, certificate_signature_algorithm_oid, certificate_signature_bits,
    certificate_signature_parameters_encoding, subject_public_key_info_encoding,
    tbs_certificate_encoding,
};
use crate::backend::ecdsa_sig::{
    p256_key_decodes, p256_message_accepted, p256_prehash_accepted, p256_signature_decodes,
    p384_key_decodes, p384_message_accepted, p384_prehash_accepted, p384_signature_decodes,
    p521_key_decodes, p521_prehash_accepted, p521_signature_decodes,
};
use crate::backend::ed25519_sig::{ed25519_key_decodes, ed25519_signature_accepted};
use crate::backend::hashing::{
    md5_digest, sha1_digest, sha224_digest, sha256_digest, sha384_digest, sha512_digest,
};
use crate::backend::public_key::spki_fields;
use crate::backend::rsa_sig::rsa_public_key_decodes;
use crate::crypto::algorithm::{
    spec_output_len, OID_EC_PUBLIC_KEY, OID_SECP256R1, OID_SECP384R1, OID_SECP521R1, OID_SHA256,
    OID_SHA384, OID_SHA512,
};
use crate::error::{Curve, Failure, SignatureScheme, TrustError, Unsupported};

verus! {

/// The signature algorithm OIDs that [`crate::crypto::verify::verify_signature_by_oid`]
/// dispatches.
pub open spec fn supported_signature_oid(oid: Seq<u8>) -> bool {
    ||| oid == OID_MD5_WITH_RSA@
    ||| oid == OID_SHA1_WITH_RSA@
    ||| oid == OID_SHA224_WITH_RSA@
    ||| oid == OID_SHA256_WITH_RSA@
    ||| oid == OID_SHA384_WITH_RSA@
    ||| oid == OID_SHA512_WITH_RSA@
    ||| oid == OID_RSASSA_PSS@
    ||| oid == OID_ECDSA_WITH_SHA1@
    ||| oid == OID_ECDSA_WITH_SHA256@
    ||| oid == OID_ECDSA_WITH_SHA384@
    ||| oid == OID_ECDSA_WITH_SHA512@
    ||| oid == OID_ED25519@
}

/// Verification by OID reports an algorithm as unsupported (with any
/// reason) exactly when its OID is not one of the supported signature
/// algorithms, and then the reason is the signature algorithm itself: every
/// supported OID is dispatched, and each of its failures is a verification
/// failure, whatever the other inputs are.
pub proof fn law_by_oid_unsupported_iff_unknown(tbs: Seq<u8>, sig: Seq<u8>, spki: Seq<u8>, oid: Seq<u8>)
    ensures
        (by_oid_outcome(tbs, sig, spki, oid) matches Err(TrustError::UnsupportedAlgorithm(_)))
            <==> !supported_signature_oid(oid),
        !supported_signature_oid(oid) ==> by_oid_outcome(tbs, sig, spki, oid)
            == Err::<(), TrustError>(TrustError::UnsupportedAlgorithm(Unsupported::SignatureAlgorithm)),
{
}

/// RSASSA-PSS by OID alone verifies exactly when one of SHA-256, SHA-384 and
/// SHA-512, each with its default salt length, verifies.
pub proof fn law_pss_by_oid_tries_three_digests(tbs: Seq<u8>, sig: Seq<u8>, spki: Seq<u8>)
    ensures
        by_oid_outcome(tbs, sig, spki, OID_RSASSA_PSS@) is Ok <==> (
            rsa_outcome(RsaPadding::Pss(DigestAlgorithm::Sha256, 32), tbs, sig, spki) is Ok
            || rsa_outcome(RsaPadding::Pss(DigestAlgorithm::Sha384, 48), tbs, sig, spki) is Ok
            || rsa_outcome(RsaPadding::Pss(DigestAlgorithm::Sha512, 64), tbs, sig, spki) is Ok),
{
}

/// With the full algorithm identifier, every algorithm other than RSASSA-PSS
/// is verified exactly as by its OID alone.
pub proof fn law_algid_delegates_to_oid(tbs: Seq<u8>, sig: Seq<u8>, spki: Seq<u8>, alg: (Seq<u8>, Option<Seq<u8>>))
    requires
        alg.0 != OID_RSASSA_PSS@,
    ensures
        by_algid_outcome(tbs, sig, spki, alg) == by_oid_outcome(tbs, sig, spki, alg.0),
{
}

/// An RSASSA-PSS algorithm identifier without parameters is refused as
/// unsupported, whatever the signature and key.
pub proof fn law_pss_requires_parameters(tbs: Seq<u8>, sig: Seq<u8>, spki: Seq<u8>)
    ensures
        by_algid_outcome(tbs, sig, spki, (OID_RSASSA_PSS@, None))
            == Err::<(), TrustError>(TrustError::UnsupportedAlgorithm(Unsupported::PssParametersMissing)),
{
}

/// Strict RSASSA-PSS verification succeeds only when the parameters decode
/// to a SHA-256, SHA-384 or SHA-512 hash, MGF1 over that same hash, and the
/// signature verifies with the declared salt length; it then returns that
/// digest.
pub proof fn law_pss_strict_honours_parameters(tbs: Seq<u8>, sig: Seq<u8>, spki: Seq<u8>, params: Seq<u8>)
    requires
        pss_strict_outcome(tbs, sig, spki, Some(params)) is Ok,
    ensures
        ({
            let d = pss_strict_outcome(tbs, sig, spki, Some(params))->Ok_0;
            let p = rsa_pss_params_decoding(params)->Some_0;
            &&& rsa_pss_params_decoding(params) is Some
            &&& spec_digest_from_oid(p.0) == Some(d)
            &&& p.1 == OID_MGF1@
            &&& p.2 == Some(p.0)
            &&& (d == DigestAlgorithm::Sha256 || d == DigestAlgorithm::Sha384 || d == DigestAlgorithm::Sha512)
            &&& rsa_signature_accepted(spki, RsaPadding::Pss(d, p.3 as usize), spec_hash(d, tbs), sig)
        }),
{
}

/// ECDSA verification is bound to the key's curve: it succeeds only for an
/// accepted (curve, digest) pairing of the key's named curve and the digest
/// that the signature algorithm declares.
pub proof fn law_ecdsa_bound_to_curve(tbs: Seq<u8>, sig: Seq<u8>, spki: Seq<u8>, d: DigestAlgorithm)
    requires
        ecdsa_bound_outcome(d, tbs, sig, spki) is Ok,
    ensures
        ({
            let curve = ec_named_curve_outcome(spki);
            ||| curve == Ok::<Curve, TrustError>(Curve::P256) && (d == DigestAlgorithm::Sha256 || d == DigestAlgorithm::Sha1)
            ||| curve == Ok::<Curve, TrustError>(Curve::P384) && (d == DigestAlgorithm::Sha384 || d == DigestAlgorithm::Sha1)
            ||| curve == Ok::<Curve, TrustError>(Curve::P521) && (d == DigestAlgorithm::Sha512
                || d == DigestAlgorithm::Sha256 || d == DigestAlgorithm::Sha384)
        }),
{
}

/// An `ecdsa-with-SHA256` signature never verifies with a P-384 key, and an
/// `ecdsa-with-SHA512` signature only verifies with a P-521 key.
pub proof fn law_ecdsa_oid_curve_pairings(tbs: Seq<u8>, sig: Seq<u8>, spki: Seq<u8>)
    ensures
        by_oid_outcome(tbs, sig, spki, OID_ECDSA_WITH_SHA256@) is Ok
            ==> ec_named_curve_outcome(spki) != Ok::<Curve, TrustError>(Curve::P384),
        by_oid_outcome(tbs, sig, spki, OID_ECDSA_WITH_SHA512@) is Ok
            ==> ec_named_curve_outcome(spki) == Ok::<Curve, TrustError>(Curve::P521),
        by_oid_outcome(tbs, sig, spki, OID_ECDSA_WITH_SHA384@) is Ok
            ==> ec_named_curve_outcome(spki) != Ok::<Curve, TrustError>(Curve::P256),
{
}

/// A certificate whose outer signature algorithm differs from its signed
/// inner one is refused before any signature is checked, whatever the
/// issuer.
pub proof fn law_certificate_algorithms_must_match(cert: Seq<u8>, issuer: Seq<u8>)
    requires
        !certificate_algorithms_agree(cert),
    ensures
        certificate_outcome(cert, issuer)
            == Err::<(), TrustError>(TrustError::SignatureVerification(Failure::AlgorithmMismatch)),
{
}

/// A certificate whose outer and inner signature algorithms agree is
/// verified as its encoded TBS, signature bits and algorithm are by
/// algorithm identifier, with the issuer's encoded SubjectPublicKeyInfo;
/// an algorithm other than RSASSA-PSS is verified by its OID alone.
pub proof fn law_certificate_verified_by_algid(cert: Seq<u8>, issuer: Seq<u8>)
    requires
        certificate_algorithms_agree(cert),
        tbs_certificate_encoding(cert) is Some,
        subject_public_key_info_encoding(issuer) is Some,
    ensures
        ({
            let tbs = tbs_certificate_encoding(cert)->Some_0;
            let spki = subject_public_key_info_encoding(issuer)->Some_0;
            let sig = certificate_signature_bits(cert);
            let oid = certificate_signature_algorithm_oid(cert);
            &&& certificate_signature_parameters_encoding(cert) matches Some(params) ==>
                certificate_outcome(cert, issuer) == by_algid_outcome(tbs, sig, spki, (oid, params))
            &&& oid != OID_RSASSA_PSS@ ==>
                certificate_outcome(cert, issuer) == by_oid_outcome(tbs, sig, spki, oid)
        }),
{
}

/// An Ed25519 verification fails on a signature that is not 64 bytes long.
pub proof fn law_ed25519_signature_length(tbs: Seq<u8>, sig: Seq<u8>, spki: Seq<u8>)
    requires
        sig.len() != 64,
    ensures
        ed25519_outcome(tbs, sig, spki) is Err,
{
}

/// The digest of `data` that the algorithm `d` computes.
pub open spec fn digest_of(d: DigestAlgorithm, data: Seq<u8>) -> Seq<u8> {
    match d {
        DigestAlgorithm::Md5 => md5_digest(data),
        DigestAlgorithm::Sha1 => sha1_digest(data),
        DigestAlgorithm::Sha224 => sha224_digest(data),
        DigestAlgorithm::Sha256 => sha256_digest(data),
        DigestAlgorithm::Sha384 => sha384_digest(data),
        DigestAlgorithm::Sha512 => sha512_digest(data),
    }
}

/// `spki` is a DER SubjectPublicKeyInfo that holds an RSA public key.
pub open spec fn holds_rsa_key(spki: Seq<u8>) -> bool {
    spki_fields(spki) is Some && rsa_public_key_decodes(spki)
}

/// The RSA key of `spki` accepts `sig` under `padding` over the digest `d`
/// of `tbs`.
pub open spec fn rsa_accepts(spki: Seq<u8>, padding: RsaPadding, d: DigestAlgorithm, tbs: Seq<u8>, sig: Seq<u8>) -> bool {
    holds_rsa_key(spki) && rsa_signature_accepted(spki, padding, digest_of(d, tbs), sig)
}

/// A verification failure at step `f`.
pub open spec fn fails_at(f: Failure) -> Result<(), TrustError> {
    Err(TrustError::SignatureVerification(f))
}

/// RSA PKCS#1 v1.5 verification with the digest `d` succeeds exactly when
/// the key accepts the signature under the PKCS#1 v1.5 padding of that same
/// digest, over that digest of the message; it fails at the SPKI, at the key,
/// or as an invalid PKCS#1 v1.5 signature with `d`, in that order.
pub proof fn law_rsa_pkcs1v15_verification(d: DigestAlgorithm, tbs: Seq<u8>, sig: Seq<u8>, spki: Seq<u8>)
    ensures
        rsa_outcome(RsaPadding::Pkcs1v15(d), tbs, sig, spki) is Ok
            <==> rsa_accepts(spki, RsaPadding::Pkcs1v15(d), d, tbs, sig),
        spki_fields(spki) is None
            ==> rsa_outcome(RsaPadding::Pkcs1v15(d), tbs, sig, spki) == fails_at(Failure::SpkiDecode),
        spki_fields(spki) is Some && !rsa_public_key_decodes(spki)
            ==> rsa_outcome(RsaPadding::Pkcs1v15(d), tbs, sig, spki) == fails_at(Failure::KeyDecode(crate::error::KeyKind::Rsa)),
        holds_rsa_key(spki) && !rsa_accepts(spki, RsaPadding::Pkcs1v15(d), d, tbs, sig)
            ==> rsa_outcome(RsaPadding::Pkcs1v15(d), tbs, sig, spki)
                == fails_at(Failure::SignatureInvalid(SignatureScheme::RsaPkcs1v15(d))),
{
}

/// RSA-PSS verification with digest `d` and salt length `salt` succeeds
/// exactly when the key accepts the signature under PSS with that digest and
/// that salt length, over that digest of the message, for every salt length;
/// it fails at the SPKI, at the key, or as an invalid PSS signature with `d`.
pub proof fn law_rsa_pss_verification(d: DigestAlgorithm, salt: usize, tbs: Seq<u8>, sig: Seq<u8>, spki: Seq<u8>)
    ensures
        rsa_outcome(RsaPadding::Pss(d, salt), tbs, sig, spki) is Ok
            <==> rsa_accepts(spki, RsaPadding::Pss(d, salt), d, tbs, sig),
        spki_fields(spki) is None
            ==> rsa_outcome(RsaPadding::Pss(d, salt), tbs, sig, spki) == fails_at(Failure::SpkiDecode),
        spki_fields(spki) is Some && !rsa_public_key_decodes(spki)
            ==> rsa_outcome(RsaPadding::Pss(d, salt), tbs, sig, spki) == fails_at(Failure::KeyDecode(crate::error::KeyKind::Rsa)),
        holds_rsa_key(spki) && !rsa_accepts(spki, RsaPadding::Pss(d, salt), d, tbs, sig)
            ==> rsa_outcome(RsaPadding::Pss(d, salt), tbs, sig, spki)
                == fails_at(Failure::SignatureInvalid(SignatureScheme::RsaPss(d))),
{
}

/// The default PSS salt length is the length of the digest: 16 bytes for
/// MD5, 20 for SHA-1, 28 for SHA-224, 32 for SHA-256, 48 for SHA-384 and 64
/// for SHA-512.
pub proof fn law_default_pss_salt_is_digest_length()
    ensures
        spec_output_len(DigestAlgorithm::Md5) == 16,
        spec_output_len(DigestAlgorithm::Sha1) == 20,
        spec_output_len(DigestAlgorithm::Sha224) == 28,
        spec_output_len(DigestAlgorithm::Sha256) == 32,
        spec_output_len(DigestAlgorithm::Sha384) == 48,
        spec_output_len(DigestAlgorithm::Sha512) == 64,
{
}

/// Each RSA PKCS#1 v1.5 signature OID is verified as RSA PKCS#1 v1.5 with
/// the digest that the OID names: it succeeds exactly when the key accepts
/// the signature under that digest's PKCS#1 v1.5 padding over that digest
/// of the message.
pub proof fn law_by_oid_rsa_pkcs1v15(tbs: Seq<u8>, sig: Seq<u8>, spki: Seq<u8>)
    ensures
        by_oid_outcome(tbs, sig, spki, OID_MD5_WITH_RSA@) == rsa_outcome(RsaPadding::Pkcs1v15(DigestAlgorithm::Md5), tbs, sig, spki),
        by_oid_outcome(tbs, sig, spki, OID_SHA1_WITH_RSA@) == rsa_outcome(RsaPadding::Pkcs1v15(DigestAlgorithm::Sha1), tbs, sig, spki),
        by_oid_outcome(tbs, sig, spki, OID_SHA224_WITH_RSA@) == rsa_outcome(RsaPadding::Pkcs1v15(DigestAlgorithm::Sha224), tbs, sig, spki),
        by_oid_outcome(tbs, sig, spki, OID_SHA256_WITH_RSA@) == rsa_outcome(RsaPadding::Pkcs1v15(DigestAlgorithm::Sha256), tbs, sig, spki),
        by_oid_outcome(tbs, sig, spki, OID_SHA384_WITH_RSA@) == rsa_outcome(RsaPadding::Pkcs1v15(DigestAlgorithm::Sha384), tbs, sig, spki),
        by_oid_outcome(tbs, sig, spki, OID_SHA512_WITH_RSA@) == rsa_outcome(RsaPadding::Pkcs1v15(DigestAlgorithm::Sha512), tbs, sig, spki),
        by_oid_outcome(tbs, sig, spki, OID_MD5_WITH_RSA@) is Ok
            <==> holds_rsa_key(spki) && rsa_signature_accepted(spki, RsaPadding::Pkcs1v15(DigestAlgorithm::Md5), md5_digest(tbs), sig),
        by_oid_outcome(tbs, sig, spki, OID_SHA1_WITH_RSA@) is Ok
            <==> holds_rsa_key(spki) && rsa_signature_accepted(spki, RsaPadding::Pkcs1v15(DigestAlgorithm::Sha1), sha1_digest(tbs), sig),
        by_oid_outcome(tbs, sig, spki, OID_SHA224_WITH_RSA@) is Ok
            <==> holds_rsa_key(spki) && rsa_signature_accepted(spki, RsaPadding::Pkcs1v15(DigestAlgorithm::Sha224), sha224_digest(tbs), sig),
        by_oid_outcome(tbs, sig, spki, OID_SHA256_WITH_RSA@) is Ok
            <==> holds_rsa_key(spki) && rsa_signature_accepted(spki, RsaPadding::Pkcs1v15(DigestAlgorithm::Sha256), sha256_digest(tbs), sig),
        by_oid_outcome(tbs, sig, spki, OID_SHA384_WITH_RSA@) is Ok
            <==> holds_rsa_key(spki) && rsa_signature_accepted(spki, RsaPadding::Pkcs1v15(DigestAlgorithm::Sha384), sha384_digest(tbs), sig),
        by_oid_outcome(tbs, sig, spki, OID_SHA512_WITH_RSA@) is Ok
            <==> holds_rsa_key(spki) && rsa_signature_accepted(spki, RsaPadding::Pkcs1v15(DigestAlgorithm::Sha512), sha512_digest(tbs), sig),
{
}

/// RSASSA-PSS by OID alone succeeds exactly when the key accepts the
/// signature under PSS with SHA-256 and a 32-byte salt, SHA-384 and a 48-byte
/// salt, or SHA-512 and a 64-byte salt, over that digest of the message.
pub proof fn law_by_oid_rsa_pss(tbs: Seq<u8>, sig: Seq<u8>, spki: Seq<u8>)
    ensures
        by_oid_outcome(tbs, sig, spki, OID_RSASSA_PSS@) is Ok <==> holds_rsa_key(spki) && (
            rsa_signature_accepted(spki, RsaPadding::Pss(DigestAlgorithm::Sha256, 32), sha256_digest(tbs), sig)
            || rsa_signature_accepted(spki, RsaPadding::Pss(DigestAlgorithm::Sha384, 48), sha384_digest(tbs), sig)
            || rsa_signature_accepted(spki, RsaPadding::Pss(DigestAlgorithm::Sha512, 64), sha512_digest(tbs), sig)),
{
}

/// `spki` is an id-ecPublicKey SubjectPublicKeyInfo on the named curve
/// `curve`.
pub open spec fn on_curve(spki: Seq<u8>, curve: Seq<u8>) -> bool {
    spki_fields(spki) matches Some(f) && f.0 == OID_EC_PUBLIC_KEY@ && f.1 == Some((0x06u8, curve))
}

/// The P-256 key and the signature decode and the key accepts the signature
/// over `tbs` hashed with SHA-256.
pub open spec fn p256_accepts_message(spki: Seq<u8>, sig: Seq<u8>, tbs: Seq<u8>) -> bool {
    on_curve(spki, OID_SECP256R1@) && p256_key_decodes(spki) && p256_signature_decodes(sig)
        && p256_message_accepted(spki, sig, tbs)
}

/// The P-384 key and the signature decode and the key accepts the signature
/// over `tbs` hashed with SHA-384.
pub open spec fn p384_accepts_message(spki: Seq<u8>, sig: Seq<u8>, tbs: Seq<u8>) -> bool {
    on_curve(spki, OID_SECP384R1@) && p384_key_decodes(spki) && p384_signature_decodes(sig)
        && p384_message_accepted(spki, sig, tbs)
}

/// The P-521 key and the signature decode and the key accepts the signature
/// over the prehash `prehash`.
pub open spec fn p521_accepts_prehash(spki: Seq<u8>, sig: Seq<u8>, prehash: Seq<u8>) -> bool {
    on_curve(spki, OID_SECP521R1@) && p521_key_decodes(spki) && p521_signature_decodes(sig)
        && p521_prehash_accepted(spki, sig, prehash)
}

/// `n` zero bytes.
pub open spec fn zeros(n: nat) -> Seq<u8> {
    Seq::new(n, |i: int| 0u8)
}

/// Each ECDSA signature OID succeeds exactly when the key's named curve is
/// one that pairs with the OID's digest and the key accepts the signature
/// over that digest of the message, padded with zeros to the field size
/// where it is shorter than half of it.
pub proof fn law_by_oid_ecdsa(tbs: Seq<u8>, sig: Seq<u8>, spki: Seq<u8>)
    ensures
        by_oid_outcome(tbs, sig, spki, OID_ECDSA_WITH_SHA256@) is Ok <==> (
            p256_accepts_message(spki, sig, tbs)
            || p521_accepts_prehash(spki, sig, zeros(34) + sha256_digest(tbs))),
        by_oid_outcome(tbs, sig, spki, OID_ECDSA_WITH_SHA384@) is Ok <==> (
            p384_accepts_message(spki, sig, tbs)
            || p521_accepts_prehash(spki, sig, sha384_digest(tbs))),
        by_oid_outcome(tbs, sig, spki, OID_ECDSA_WITH_SHA512@) is Ok
            <==> p521_accepts_prehash(spki, sig, sha512_digest(tbs)),
        by_oid_outcome(tbs, sig, spki, OID_ECDSA_WITH_SHA1@) is Ok <==> (
            (on_curve(spki, OID_SECP256R1@) && p256_key_decodes(spki) && p256_signature_decodes(sig)
                && p256_prehash_accepted(spki, sig, sha1_digest(tbs)))
            || (on_curve(spki, OID_SECP384R1@) && p384_key_decodes(spki) && p384_signature_decodes(sig)
                && p384_prehash_accepted(spki, sig, zeros(28) + sha1_digest(tbs)))),
{
    assert(OID_SECP256R1@ != OID_SECP521R1@ && OID_SECP384R1@ != OID_SECP521R1@
        && OID_SECP256R1@ != OID_SECP384R1@) by {
        assert(OID_SECP256R1@.len() != OID_SECP521R1@.len());
        assert(OID_SECP256R1@.len() != OID_SECP384R1@.len());
        assert(OID_SECP384R1@[4] != OID_SECP521R1@[4]);
    }
}

/// The Ed25519 OID succeeds exactly when the SPKI decodes, its key bytes are
/// an Ed25519 key, the signature is 64 bytes and the key accepts it over the
/// message.
pub proof fn law_by_oid_ed25519(tbs: Seq<u8>, sig: Seq<u8>, spki: Seq<u8>)
    ensures
        by_oid_outcome(tbs, sig, spki, OID_ED25519@) is Ok <==> (spki_fields(spki) matches Some(f)
            && ed25519_key_decodes(f.2) && sig.len() == 64 && ed25519_signature_accepted(f.2, tbs, sig)),
{
}

/// Strict RSASSA-PSS verification is complete: parameters that decode to a
/// SHA-256, SHA-384 or SHA-512 hash `h`, MGF1 over that same hash and a salt
/// length `salt`, with a key that accepts the signature under PSS with that
/// digest and salt length over that digest of the message, give that digest.
pub proof fn law_pss_strict_complete(tbs: Seq<u8>, sig: Seq<u8>, spki: Seq<u8>, params: Seq<u8>, h: Seq<u8>, salt: u8, d: DigestAlgorithm)
    requires
        rsa_pss_params_decoding(params) == Some((h, OID_MGF1@, Some(h), salt)),
        (d == DigestAlgorithm::Sha256 && h == OID_SHA256@) || (d == DigestAlgorithm::Sha384 && h == OID_SHA384@)
            || (d == DigestAlgorithm::Sha512 && h == OID_SHA512@),
        rsa_accepts(spki, RsaPadding::Pss(d, salt as usize), d, tbs, sig),
    ensures
        pss_strict_outcome(tbs, sig, spki, Some(params)) == Ok::<DigestAlgorithm, TrustError>(d),
        by_algid_outcome(tbs, sig, spki, (OID_RSASSA_PSS@, Some(params))) == Ok::<(), TrustError>(()),
{
    assert(OID_SHA256@ != OID_SHA384@ && OID_SHA256@ != OID_SHA512@ && OID_SHA384@ != OID_SHA512@) by {
        assert(OID_SHA256@[8] != OID_SHA384@[8]);
        assert(OID_SHA256@[8] != OID_SHA512@[8]);
        assert(OID_SHA384@[8] != OID_SHA512@[8]);
    }
}

/// For an RSASSA-PSS algorithm identifier, verification by algorithm
/// identifier succeeds exactly when strict PSS verification does, and fails
/// with the same error.
pub proof fn law_algid_pss_is_strict(tbs: Seq<u8>, sig: Seq<u8>, spki: Seq<u8>, params: Option<Seq<u8>>)
    ensures
        by_algid_outcome(tbs, sig, spki, (OID_RSASSA_PSS@, params)) is Ok
            <==> pss_strict_outcome(tbs, sig, spki, params) is Ok,
        pss_strict_outcome(tbs, sig, spki, params) matches Err(e)
            ==> by_algid_outcome(tbs, sig, spki, (OID_RSASSA_PSS@, params)) == Err::<(), TrustError>(e),
{
}

/// The digest that an ECDSA signature OID declares.
pub open spec fn ecdsa_oid_digest(oid: Seq<u8>) -> Option<DigestAlgorithm> {
    if oid == OID_ECDSA_WITH_SHA1@ {
        Some(DigestAlgorithm::Sha1)
    } else if oid == OID_ECDSA_WITH_SHA256@ {
        Some(DigestAlgorithm::Sha256)
    } else if oid == OID_ECDSA_WITH_SHA384@ {
        Some(DigestAlgorithm::Sha384)
    } else if oid == OID_ECDSA_WITH_SHA512@ {
        Some(DigestAlgorithm::Sha512)
    } else {
        None
    }
}

/// Whether the curve and digest are one of the accepted ECDSA pairings.
pub open spec fn accepted_pairing(c: Curve, d: DigestAlgorithm) -> bool {
    ||| c == Curve::P256 && (d == DigestAlgorithm::Sha256 || d == DigestAlgorithm::Sha1)
    ||| c == Curve::P384 && (d == DigestAlgorithm::Sha384 || d == DigestAlgorithm::Sha1)
    ||| c == Curve::P521 && (d == DigestAlgorithm::Sha512 || d == DigestAlgorithm::Sha256
        || d == DigestAlgorithm::Sha384)
}

/// The OID of a named curve.
pub open spec fn curve_oid(c: Curve) -> Seq<u8> {
    match c {
        Curve::P256 => OID_SECP256R1@,
        Curve::P384 => OID_SECP384R1@,
        Curve::P521 => OID_SECP521R1@,
    }
}

/// How an ECDSA signature OID fails before any signature is checked: an SPKI
/// that does not decode, a key that is not an EC key, a curve other than
/// P-256, P-384 and P-521, and a curve that does not pair with the declared
/// digest each give their own verification failure.
pub proof fn law_by_oid_ecdsa_failures(tbs: Seq<u8>, sig: Seq<u8>, spki: Seq<u8>, oid: Seq<u8>, c: Curve)
    requires
        ecdsa_oid_digest(oid) is Some,
    ensures
        spki_fields(spki) is None ==> by_oid_outcome(tbs, sig, spki, oid) == fails_at(Failure::SpkiDecode),
        spki_fields(spki) matches Some(f) && f.0 != OID_EC_PUBLIC_KEY@
            ==> by_oid_outcome(tbs, sig, spki, oid) == fails_at(Failure::KeyDecode(crate::error::KeyKind::Ec)),
        spki_fields(spki) matches Some(f) && f.0 == OID_EC_PUBLIC_KEY@ && (f.1 matches Some(p) && p.0 == 0x06u8
            && p.1 != OID_SECP256R1@ && p.1 != OID_SECP384R1@ && p.1 != OID_SECP521R1@)
            ==> by_oid_outcome(tbs, sig, spki, oid) == fails_at(Failure::UnknownCurve),
        on_curve(spki, curve_oid(c)) && !accepted_pairing(c, ecdsa_oid_digest(oid)->Some_0)
            ==> by_oid_outcome(tbs, sig, spki, oid)
                == fails_at(Failure::CurveDigestMismatch(c, ecdsa_oid_digest(oid)->Some_0)),
{
    assert(OID_SECP256R1@ != OID_SECP521R1@ && OID_SECP384R1@ != OID_SECP521R1@
        && OID_SECP256R1@ != OID_SECP384R1@) by {
        assert(OID_SECP256R1@.len() != OID_SECP521R1@.len());
        assert(OID_SECP256R1@.len() != OID_SECP384R1@.len());
        assert(OID_SECP384R1@[4] != OID_SECP521R1@[4]);
    }
}

/// How the Ed25519 OID fails: at the SPKI, at the key bytes, at a signature
/// that is not 64 bytes, or as an invalid Ed25519 signature, in that order.
pub proof fn law_by_oid_ed25519_failures(tbs: Seq<u8>, sig: Seq<u8>, spki: Seq<u8>)
    ensures
        spki_fields(spki) is None ==> by_oid_outcome(tbs, sig, spki, OID_ED25519@) == fails_at(Failure::SpkiDecode),
        spki_fields(spki) matches Some(f) && !ed25519_key_decodes(f.2)
            ==> by_oid_outcome(tbs, sig, spki, OID_ED25519@) == fails_at(Failure::KeyDecode(crate::error::KeyKind::Ed25519)),
        spki_fields(spki) matches Some(f) && ed25519_key_decodes(f.2) && sig.len() != 64
            ==> by_oid_outcome(tbs, sig, spki, OID_ED25519@) == fails_at(Failure::SignatureDecode(crate::error::KeyKind::Ed25519)),
        spki_fields(spki) matches Some(f) && ed25519_key_decodes(f.2) && sig.len() == 64
            && !ed25519_signature_accepted(f.2, tbs, sig)
            ==> by_oid_outcome(tbs, sig, spki, OID_ED25519@) == fails_at(Failure::SignatureInvalid(SignatureScheme::Ed25519)),
{
}

/// A refused algorithm, for reason `u`.
pub open spec fn refused<T>(u: Unsupported) -> Result<T, TrustError> {
    Err(TrustError::UnsupportedAlgorithm(u))
}

/// `h` is the OID of one of the six digests.
pub open spec fn is_digest_oid(h: Seq<u8>) -> bool {
    h == crate::crypto::algorithm::OID_MD5@ || h == crate::crypto::algorithm::OID_SHA1@
        || h == crate::crypto::algorithm::OID_SHA224@ || h == OID_SHA256@ || h == OID_SHA384@
        || h == OID_SHA512@
}

/// How strict RSASSA-PSS verification refuses its parameters, in order:
/// absent, not decoding, a hash that is not a digest, a mask generation
/// function other than MGF1, an MGF1 hash other than the message hash, and
/// a digest other than SHA-256, SHA-384 and SHA-512.
pub proof fn law_pss_strict_refusals(tbs: Seq<u8>, sig: Seq<u8>, spki: Seq<u8>, params: Seq<u8>, h: Seq<u8>, mgf: Seq<u8>, mgf_hash: Option<Seq<u8>>, salt: u8)
    ensures
        pss_strict_outcome(tbs, sig, spki, None) == refused::<DigestAlgorithm>(Unsupported::PssParametersMissing),
        rsa_pss_params_decoding(params) is None ==> pss_strict_outcome(tbs, sig, spki, Some(params))
            == Err::<DigestAlgorithm, TrustError>(TrustError::SignatureVerification(Failure::PssParametersDecode)),
        rsa_pss_params_decoding(params) == Some((h, mgf, mgf_hash, salt)) ==> {
            &&& !is_digest_oid(h) ==> pss_strict_outcome(tbs, sig, spki, Some(params))
                == refused::<DigestAlgorithm>(Unsupported::PssHashAlgorithm)
            &&& is_digest_oid(h) && mgf != OID_MGF1@ ==> pss_strict_outcome(tbs, sig, spki, Some(params))
                == refused::<DigestAlgorithm>(Unsupported::PssMaskGenAlgorithm)
            &&& is_digest_oid(h) && mgf == OID_MGF1@ && mgf_hash != Some(h)
                ==> pss_strict_outcome(tbs, sig, spki, Some(params))
                    == refused::<DigestAlgorithm>(Unsupported::PssMaskGenHash)
            &&& h == crate::crypto::algorithm::OID_SHA1@ && mgf == OID_MGF1@ && mgf_hash == Some(h)
                ==> pss_strict_outcome(tbs, sig, spki, Some(params))
                    == refused::<DigestAlgorithm>(Unsupported::PssDigest(DigestAlgorithm::Sha1))
            &&& h == crate::crypto::algorithm::OID_SHA224@ && mgf == OID_MGF1@ && mgf_hash == Some(h)
                ==> pss_strict_outcome(tbs, sig, spki, Some(params))
                    == refused::<DigestAlgorithm>(Unsupported::PssDigest(DigestAlgorithm::Sha224))
            &&& h == crate::crypto::algorithm::OID_MD5@ && mgf == OID_MGF1@ && mgf_hash == Some(h)
                ==> pss_strict_outcome(tbs, sig, spki, Some(params))
                    == refused::<DigestAlgorithm>(Unsupported::PssDigest(DigestAlgorithm::Md5))
        },
{
    assert(crate::crypto::algorithm::OID_SHA1@ != crate::crypto::algorithm::OID_MD5@
        && crate::crypto::algorithm::OID_SHA224@ != crate::crypto::algorithm::OID_MD5@
        && crate::crypto::algorithm::OID_SHA224@ != crate::crypto::algorithm::OID_SHA1@) by {
        assert(crate::crypto::algorithm::OID_SHA1@.len() != crate::crypto::algorithm::OID_MD5@.len());
        assert(crate::crypto::algorithm::OID_SHA224@.len() != crate::crypto::algorithm::OID_MD5@.len());
        assert(crate::crypto::algorithm::OID_SHA224@.len() != crate::crypto::algorithm::OID_SHA1@.len());
    }
}

} // verus!
