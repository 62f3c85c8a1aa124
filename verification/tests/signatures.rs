use der::{Decode, Encode};
use ecdsa::signature::hazmat::PrehashSigner;
use ecdsa::signature::Signer;
use rsa::pkcs1::RsaPssParams;
use rsa::pkcs8::EncodePublicKey;
use rsa::signature::{RandomizedSigner, SignatureEncoding};
use sha2::Digest;

use tsp_ltv::crypto::algorithm::{
    AlgorithmIdentifier, DigestAlgorithm, OID_ECDSA_WITH_SHA1, OID_ECDSA_WITH_SHA256,
    OID_ECDSA_WITH_SHA384, OID_ECDSA_WITH_SHA512, OID_ED25519, OID_RSASSA_PSS,
    OID_SHA1_WITH_RSA, OID_SHA256_WITH_RSA,
};
use tsp_ltv::crypto::oid::Oid;
use tsp_ltv::crypto::verify::{
    ec_named_curve, verify_ecdsa_p256_signature, verify_ecdsa_p384_sha1_signature, verify_ecdsa_p521_sha256_signature,
    verify_ed25519_signature, verify_rsa_pss_signature, verify_rsa_pss_signature_strict,
    verify_rsa_pss_signature_with_salt, verify_rsa_signature, verify_signature_by_algid,
    verify_signature_by_oid,
};
use tsp_ltv::error::{Curve, Failure, KeyKind, SignatureScheme, TrustError, Unsupported};

const MSG: &[u8] = b"message signed for the verification tests";

fn oid(bytes: &[u8]) -> Oid {
    Oid::from_content_bytes(bytes.to_vec())
}

fn failure(f: Failure) -> Result<(), TrustError> {
    Err(TrustError::SignatureVerification(f))
}

fn rsa_key() -> (rsa::RsaPrivateKey, Vec<u8>) {
    let key = rsa::RsaPrivateKey::new(&mut rand::thread_rng(), 2048).unwrap();
    let spki = rsa::RsaPublicKey::from(&key).to_public_key_der().unwrap().as_bytes().to_vec();
    (key, spki)
}

fn p256_key() -> (p256::ecdsa::SigningKey, Vec<u8>) {
    let key = p256::ecdsa::SigningKey::random(&mut rand::thread_rng());
    let spki = key.verifying_key().to_public_key_der().unwrap().as_bytes().to_vec();
    (key, spki)
}

fn p384_key() -> (p384::ecdsa::SigningKey, Vec<u8>) {
    let key = p384::ecdsa::SigningKey::random(&mut rand::thread_rng());
    let spki = key.verifying_key().to_public_key_der().unwrap().as_bytes().to_vec();
    (key, spki)
}

fn p521_key() -> (p521::ecdsa::SigningKey, Vec<u8>) {
    let key = p521::ecdsa::SigningKey::random(&mut rand::thread_rng());
    let point = p521::ecdsa::VerifyingKey::from(&key).to_encoded_point(false);
    let public = p521::PublicKey::from_sec1_bytes(point.as_bytes()).unwrap();
    let spki = public.to_public_key_der().unwrap().as_bytes().to_vec();
    (key, spki)
}

fn ed25519_spki(key: &ed25519_dalek::VerifyingKey) -> Vec<u8> {
    let mut spki = vec![0x30, 0x2a, 0x30, 0x05, 0x06, 0x03, 0x2b, 0x65, 0x70, 0x03, 0x21, 0x00];
    spki.extend_from_slice(key.as_bytes());
    spki
}

fn pss_params<D: const_oid::AssociatedOid>(salt_len: u8) -> Vec<u8> {
    RsaPssParams::new::<D>(salt_len).to_der().unwrap()
}

#[test]
fn rsa_pkcs1v15_sha256_by_oid() {
    let (key, spki) = rsa_key();
    let signer = rsa::pkcs1v15::SigningKey::<sha2::Sha256>::new(key);
    let sig = signer.sign(MSG).to_vec();
    assert_eq!(verify_signature_by_oid(MSG, &sig, &spki, &oid(&OID_SHA256_WITH_RSA)), Ok(()));
    assert_eq!(verify_rsa_signature(DigestAlgorithm::Sha256, MSG, &sig, &spki), Ok(()));
    // Another message, another digest: the signature no longer verifies.
    assert_eq!(
        verify_rsa_signature(DigestAlgorithm::Sha256, b"other", &sig, &spki),
        failure(Failure::SignatureInvalid(SignatureScheme::RsaPkcs1v15(DigestAlgorithm::Sha256)))
    );
    assert_eq!(
        verify_signature_by_oid(MSG, &sig, &spki, &oid(&OID_SHA1_WITH_RSA)),
        failure(Failure::SignatureInvalid(SignatureScheme::RsaPkcs1v15(DigestAlgorithm::Sha1)))
    );
}

#[test]
fn rsa_key_that_does_not_decode() {
    assert_eq!(
        verify_rsa_signature(DigestAlgorithm::Sha256, MSG, b"sig", b"not a key"),
        failure(Failure::SpkiDecode)
    );
    let (_, p256_spki) = p256_key();
    assert_eq!(
        verify_signature_by_oid(MSG, b"sig", &p256_spki, &oid(&OID_SHA256_WITH_RSA)),
        failure(Failure::KeyDecode(KeyKind::Rsa))
    );
}

#[test]
fn rsa_pss_by_oid_tries_each_digest() {
    let (key, spki) = rsa_key();
    // SHA-384 with its default salt: found after SHA-256 fails.
    let signer = rsa::pss::SigningKey::<sha2::Sha384>::new(key);
    let sig = signer.sign_with_rng(&mut rand::thread_rng(), MSG).to_vec();
    assert_eq!(verify_signature_by_oid(MSG, &sig, &spki, &oid(&OID_RSASSA_PSS)), Ok(()));
    assert_eq!(verify_rsa_pss_signature(DigestAlgorithm::Sha384, MSG, &sig, &spki), Ok(()));
    assert_eq!(verify_rsa_pss_signature_with_salt(DigestAlgorithm::Sha384, MSG, &sig, &spki, 48), Ok(()));
    assert_eq!(
        verify_rsa_pss_signature_with_salt(DigestAlgorithm::Sha384, MSG, &sig, &spki, 20),
        failure(Failure::SignatureInvalid(SignatureScheme::RsaPss(DigestAlgorithm::Sha384)))
    );
    // None of the three digests verifies a tampered message: the last error stands.
    assert_eq!(
        verify_signature_by_oid(b"tampered", &sig, &spki, &oid(&OID_RSASSA_PSS)),
        failure(Failure::SignatureInvalid(SignatureScheme::RsaPss(DigestAlgorithm::Sha512)))
    );
}

#[test]
fn rsa_pss_strict_returns_the_declared_digest() {
    let (key, spki) = rsa_key();
    let signer = rsa::pss::SigningKey::<sha2::Sha512>::new_with_salt_len(key, 0);
    let sig = signer.sign_with_rng(&mut rand::thread_rng(), MSG).to_vec();
    let params = pss_params::<sha2::Sha512>(0);
    assert_eq!(
        verify_rsa_pss_signature_strict(MSG, &sig, &spki, Some(&params)),
        Ok(DigestAlgorithm::Sha512)
    );
}

#[test]
fn rsa_pss_strict_parameter_errors() {
    let unsupported = |u| Err(TrustError::UnsupportedAlgorithm(u));
    // Missing parameters.
    assert_eq!(verify_rsa_pss_signature_strict(MSG, b"sig", b"spki", None), unsupported(Unsupported::PssParametersMissing));
    // Parameters that do not decode.
    assert_eq!(
        verify_rsa_pss_signature_strict(MSG, b"sig", b"spki", Some(b"junk")),
        Err(TrustError::SignatureVerification(Failure::PssParametersDecode))
    );
    // The empty SEQUENCE takes the defaults: SHA-1 everywhere.
    assert_eq!(
        verify_rsa_pss_signature_strict(MSG, b"sig", b"spki", Some(&[0x30, 0x00])),
        unsupported(Unsupported::PssDigest(DigestAlgorithm::Sha1))
    );
    // A hash algorithm that is not a digest.
    let mut p = RsaPssParams::new::<sha2::Sha256>(32);
    p.hash.oid = const_oid::ObjectIdentifier::new_unwrap("1.2.3.4");
    assert_eq!(
        verify_rsa_pss_signature_strict(MSG, b"sig", b"spki", Some(&p.to_der().unwrap())),
        unsupported(Unsupported::PssHashAlgorithm)
    );
    // A mask generation function that is not MGF1.
    let mut p = RsaPssParams::new::<sha2::Sha256>(32);
    p.mask_gen.oid = const_oid::ObjectIdentifier::new_unwrap("1.2.3.4");
    assert_eq!(
        verify_rsa_pss_signature_strict(MSG, b"sig", b"spki", Some(&p.to_der().unwrap())),
        unsupported(Unsupported::PssMaskGenAlgorithm)
    );
    // MGF1 over another hash than the message hash.
    let mut p = RsaPssParams::new::<sha2::Sha256>(32);
    p.mask_gen.parameters = RsaPssParams::new::<sha2::Sha384>(32).mask_gen.parameters;
    assert_eq!(
        verify_rsa_pss_signature_strict(MSG, b"sig", b"spki", Some(&p.to_der().unwrap())),
        unsupported(Unsupported::PssMaskGenHash)
    );
    // Well-formed parameters, but an SPKI that does not decode.
    let p = pss_params::<sha2::Sha256>(32);
    assert_eq!(
        verify_rsa_pss_signature_strict(MSG, b"sig", b"spki", Some(&p)),
        Err(TrustError::SignatureVerification(Failure::SpkiDecode))
    );
}

#[test]
fn algid_delegates_other_algorithms_to_oid() {
    let (key, spki) = p256_key();
    let sig: p256::ecdsa::Signature = key.sign(MSG);
    let der = sig.to_der().as_bytes().to_vec();
    let alg = AlgorithmIdentifier { oid: oid(&OID_ECDSA_WITH_SHA256), parameters: None };
    assert_eq!(verify_signature_by_algid(MSG, &der, &spki, &alg), Ok(()));
    assert_eq!(
        verify_signature_by_algid(b"other", &der, &spki, &alg),
        verify_signature_by_oid(b"other", &der, &spki, &oid(&OID_ECDSA_WITH_SHA256))
    );
}

#[test]
fn ecdsa_p256_and_p384_with_their_own_digests() {
    let (key, spki) = p256_key();
    let sig: p256::ecdsa::Signature = key.sign(MSG);
    let der = sig.to_der().as_bytes().to_vec();
    assert_eq!(verify_signature_by_oid(MSG, &der, &spki, &oid(&OID_ECDSA_WITH_SHA256)), Ok(()));
    assert_eq!(
        verify_signature_by_oid(b"other", &der, &spki, &oid(&OID_ECDSA_WITH_SHA256)),
        failure(Failure::SignatureInvalid(SignatureScheme::Ecdsa(Curve::P256, DigestAlgorithm::Sha256)))
    );
    assert_eq!(
        verify_signature_by_oid(MSG, b"not DER", &spki, &oid(&OID_ECDSA_WITH_SHA256)),
        failure(Failure::SignatureDecode(KeyKind::P256))
    );

    let (key, spki) = p384_key();
    let sig: p384::ecdsa::Signature = key.sign(MSG);
    let der = sig.to_der().as_bytes().to_vec();
    assert_eq!(verify_signature_by_oid(MSG, &der, &spki, &oid(&OID_ECDSA_WITH_SHA384)), Ok(()));

    // An SPKI that does not decode, and one that holds no key of the curve.
    assert_eq!(verify_ecdsa_p256_signature(MSG, &der, b"junk"), failure(Failure::SpkiDecode));
    assert_eq!(verify_ecdsa_p256_signature(MSG, &der, &spki), failure(Failure::KeyDecode(KeyKind::P256)));
}

#[test]
fn ecdsa_curve_is_bound_to_the_declared_digest() {
    let (key, spki) = p384_key();
    let sig: p384::ecdsa::Signature = key.sign(MSG);
    let der = sig.to_der().as_bytes().to_vec();
    // A P-384 key under ecdsa-with-SHA256 or -SHA512 fails verification.
    assert_eq!(
        verify_signature_by_oid(MSG, &der, &spki, &oid(&OID_ECDSA_WITH_SHA256)),
        failure(Failure::CurveDigestMismatch(Curve::P384, DigestAlgorithm::Sha256))
    );
    assert_eq!(
        verify_signature_by_oid(MSG, &der, &spki, &oid(&OID_ECDSA_WITH_SHA512)),
        failure(Failure::CurveDigestMismatch(Curve::P384, DigestAlgorithm::Sha512))
    );
    assert_eq!(ec_named_curve(&spki), Ok(Curve::P384));
}

#[test]
fn ec_named_curve_errors() {
    assert_eq!(ec_named_curve(b"junk"), Err(TrustError::SignatureVerification(Failure::SpkiDecode)));
    let (_, rsa_spki) = rsa_key();
    assert_eq!(ec_named_curve(&rsa_spki), Err(TrustError::SignatureVerification(Failure::KeyDecode(KeyKind::Ec))));
    // An EC key on secp256k1 (1.3.132.0.10): a curve that is not supported.
    let (_, p256_spki) = p256_key();
    let mut k1 = p256_spki.clone();
    let pos = k1.windows(8).position(|w| w == [0x2a, 0x86, 0x48, 0xce, 0x3d, 0x03, 0x01, 0x07]).unwrap();
    // Replace the 8-byte curve OID by the 5-byte secp256k1 OID, fixing the lengths.
    k1.splice(pos - 2..pos + 8, [0x06, 0x05, 0x2b, 0x81, 0x04, 0x00, 0x0a]);
    k1[1] -= 3;
    k1[3] -= 3;
    assert_eq!(ec_named_curve(&k1), Err(TrustError::SignatureVerification(Failure::UnknownCurve)));
}

#[test]
fn ecdsa_p521_with_sha512_sha384_and_padded_sha256() {
    let (key, spki) = p521_key();
    let h512 = sha2::Sha512::digest(MSG);
    let sig: p521::ecdsa::Signature = key.sign_prehash(&h512).unwrap();
    let der = sig.to_der().as_bytes().to_vec();
    assert_eq!(verify_signature_by_oid(MSG, &der, &spki, &oid(&OID_ECDSA_WITH_SHA512)), Ok(()));

    let h384 = sha2::Sha384::digest(MSG);
    let sig: p521::ecdsa::Signature = key.sign_prehash(&h384).unwrap();
    let der = sig.to_der().as_bytes().to_vec();
    assert_eq!(verify_signature_by_oid(MSG, &der, &spki, &oid(&OID_ECDSA_WITH_SHA384)), Ok(()));

    // SHA-256, left-padded with zeros to the 66-byte field size.
    let mut padded = vec![0u8; 66];
    padded[34..].copy_from_slice(&sha2::Sha256::digest(MSG));
    let sig: p521::ecdsa::Signature = key.sign_prehash(&padded).unwrap();
    let der = sig.to_der().as_bytes().to_vec();
    assert_eq!(verify_signature_by_oid(MSG, &der, &spki, &oid(&OID_ECDSA_WITH_SHA256)), Ok(()));
    assert_eq!(verify_ecdsa_p521_sha256_signature(MSG, &der, &spki), Ok(()));
    assert_eq!(
        verify_ecdsa_p521_sha256_signature(b"other", &der, &spki),
        failure(Failure::SignatureInvalid(SignatureScheme::Ecdsa(Curve::P521, DigestAlgorithm::Sha256)))
    );
}

#[test]
fn ecdsa_legacy_sha1() {
    let (key, spki) = p256_key();
    let h = sha1::Sha1::digest(MSG);
    let sig: p256::ecdsa::Signature = key.sign_prehash(&h).unwrap();
    let der = sig.to_der().as_bytes().to_vec();
    assert_eq!(verify_signature_by_oid(MSG, &der, &spki, &oid(&OID_ECDSA_WITH_SHA1)), Ok(()));

    // P-384 over SHA-1, signed over the digest left-padded to the 48-byte
    // field size (the same integer).
    let (key, spki) = p384_key();
    let mut padded = vec![0u8; 48];
    padded[28..].copy_from_slice(&sha1::Sha1::digest(MSG));
    let sig: p384::ecdsa::Signature = key.sign_prehash(&padded).unwrap();
    let der = sig.to_der().as_bytes().to_vec();
    assert_eq!(verify_ecdsa_p384_sha1_signature(MSG, &der, &spki), Ok(()));
    assert_eq!(verify_signature_by_oid(MSG, &der, &spki, &oid(&OID_ECDSA_WITH_SHA1)), Ok(()));
    assert_eq!(
        verify_ecdsa_p384_sha1_signature(b"other", &der, &spki),
        failure(Failure::SignatureInvalid(SignatureScheme::Ecdsa(Curve::P384, DigestAlgorithm::Sha1)))
    );
}

#[test]
fn ed25519_by_oid() {
    let key = ed25519_dalek::SigningKey::from_bytes(&[7u8; 32]);
    let spki = ed25519_spki(&key.verifying_key());
    let sig = key.sign(MSG).to_bytes().to_vec();
    assert_eq!(verify_signature_by_oid(MSG, &sig, &spki, &oid(&OID_ED25519)), Ok(()));
    assert_eq!(
        verify_ed25519_signature(b"other", &sig, &spki),
        failure(Failure::SignatureInvalid(SignatureScheme::Ed25519))
    );
    assert_eq!(verify_ed25519_signature(MSG, &sig[..63], &spki), failure(Failure::SignatureDecode(KeyKind::Ed25519)));
    assert_eq!(verify_ed25519_signature(MSG, &sig, b"junk"), failure(Failure::SpkiDecode));
    // A well-formed SPKI whose key is not 32 bytes.
    let mut short = spki.clone();
    short.truncate(spki.len() - 1);
    short[1] -= 1;
    short[10] -= 1;
    assert_eq!(verify_ed25519_signature(MSG, &sig, &short), failure(Failure::KeyDecode(KeyKind::Ed25519)));
}

#[test]
fn pss_params_in_algid() {
    let (key, spki) = rsa_key();
    let signer = rsa::pss::SigningKey::<sha2::Sha256>::new_with_salt_len(key, 10);
    let sig = signer.sign_with_rng(&mut rand::thread_rng(), MSG).to_vec();
    let alg = |salt| AlgorithmIdentifier { oid: oid(&OID_RSASSA_PSS), parameters: Some(pss_params::<sha2::Sha256>(salt)) };
    assert_eq!(verify_signature_by_algid(MSG, &sig, &spki, &alg(10)), Ok(()));
    assert_eq!(
        verify_signature_by_algid(MSG, &sig, &spki, &alg(11)),
        failure(Failure::SignatureInvalid(SignatureScheme::RsaPss(DigestAlgorithm::Sha256)))
    );
    // By OID alone, the default salt (32) is assumed and the signature fails.
    assert!(verify_signature_by_oid(MSG, &sig, &spki, &oid(&OID_RSASSA_PSS)).is_err());
}
