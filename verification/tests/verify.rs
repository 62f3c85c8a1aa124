use std::str::FromStr;
use std::time::Duration;

use der::{Decode, Encode};
use rsa::pkcs1::RsaPssParams;
use rsa::pkcs8::EncodePublicKey;
use rsa::signature::{RandomizedSigner, SignatureEncoding};
use x509_cert::builder::{Builder, CertificateBuilder, Profile};
use x509_cert::name::Name;
use x509_cert::serial_number::SerialNumber;
use x509_cert::time::Validity;

use tsp_ltv::crypto::algorithm::{AlgorithmIdentifier, OID_ED25519, OID_RSASSA_PSS};
use tsp_ltv::crypto::oid::Oid;
use tsp_ltv::crypto::verify::{
    verify_certificate_signature, verify_signature_by_algid, verify_signature_by_oid, Certificate,
};
use tsp_ltv::crypto::algorithm::DigestAlgorithm;
use tsp_ltv::error::{Curve, Failure, SignatureScheme, TrustError};

fn oid(bytes: &[u8]) -> Oid {
    Oid::from_content_bytes(bytes.to_vec())
}

/// A P-256 key pair and its certificate, issued by `issuer` (or self-signed).
struct Issued {
    key: p256::ecdsa::SigningKey,
    name: Name,
    der: Vec<u8>,
    cert: Certificate,
}

fn issue(subject: &str, profile_of: impl FnOnce(&Name) -> Profile, signer: Option<&Issued>) -> Issued {
    let key = p256::ecdsa::SigningKey::random(&mut rand::thread_rng());
    let name = Name::from_str(subject).unwrap();
    let spki = x509_cert::spki::SubjectPublicKeyInfoOwned::from_key(*key.verifying_key()).unwrap();
    let signing = signer.map(|s| &s.key).unwrap_or(&key);
    let builder = CertificateBuilder::new(
        profile_of(&name),
        SerialNumber::from(7u32),
        Validity::from_now(Duration::new(3600, 0)).unwrap(),
        name.clone(),
        spki,
        signing,
    )
    .unwrap();
    let cert = builder.build::<p256::ecdsa::DerSignature>().unwrap();
    let der = cert.to_der().unwrap();
    let cert = Certificate::from_der(&der).unwrap();
    Issued { key, name, der, cert }
}

fn ca() -> Issued {
    issue("CN=Test Root CA,O=Test", |_| Profile::Root, None)
}

fn intermediate(ca: &Issued) -> Issued {
    let issuer = ca.name.clone();
    issue(
        "CN=Test Intermediate CA,O=Test",
        move |_| Profile::SubCA { issuer, path_len_constraint: Some(0) },
        Some(ca),
    )
}

fn signer(intermediate: &Issued) -> Issued {
    let issuer = intermediate.name.clone();
    issue(
        "CN=Test Signer,O=Test",
        move |_| Profile::Leaf { issuer, enable_key_agreement: false, enable_key_encipherment: false },
        Some(intermediate),
    )
}

#[test]
fn test_verify_certificate_signature_ca_self_signed() {
    let ca = ca();
    // Self-signed: issuer == subject
    let result = verify_certificate_signature(&ca.cert, &ca.cert);
    assert!(result.is_ok(), "CA self-signature should verify: {result:?}");
}

#[test]
fn test_verify_certificate_signature_chain() {
    let ca = ca();
    let intermediate = intermediate(&ca);
    let signer = signer(&intermediate);

    // Signer is issued by intermediate
    let result = verify_certificate_signature(&signer.cert, &intermediate.cert);
    assert!(result.is_ok(), "signer cert should verify against intermediate: {result:?}");

    // Intermediate is issued by CA
    let result = verify_certificate_signature(&intermediate.cert, &ca.cert);
    assert!(result.is_ok(), "intermediate cert should verify against CA: {result:?}");
}

#[test]
fn test_verify_certificate_signature_wrong_issuer() {
    let ca = ca();
    let intermediate = intermediate(&ca);
    let signer = signer(&intermediate);

    // Self-verify should fail (signer is not self-signed)
    let result = verify_certificate_signature(&signer.cert, &signer.cert);
    assert!(result.is_err(), "wrong issuer should fail verification");
}

#[test]
fn test_unsupported_algorithm_oid() {
    let fake_oid = const_oid::ObjectIdentifier::new_unwrap("1.2.3.4.5.6.7.8.9");
    let result = verify_signature_by_oid(b"tbs", b"sig", b"spki", &oid(fake_oid.as_bytes()));
    assert!(result.is_err());
    let err_msg = result.unwrap_err().message();
    assert!(err_msg.contains("unsupported"), "error should mention unsupported: {err_msg}");
}

#[test]
fn test_rsassa_pss_oid_dispatches() {
    // Even with bad data, the RSA-PSS branch should be reached (not "unsupported")
    let pss_oid = oid(&OID_RSASSA_PSS);
    let result = verify_signature_by_oid(b"tbs", b"sig", b"bad_spki", &pss_oid);
    assert!(result.is_err());
    let err_msg = result.unwrap_err().message();
    // Should fail at SPKI decode, not "unsupported algorithm"
    assert!(!err_msg.contains("unsupported"), "RSA-PSS should be dispatched, not unsupported: {err_msg}");
}

/// Build an RSASSA-PSS signature `AlgorithmIdentifier` (OID + params) for a
/// given hash and salt length.
fn pss_algid<D>(salt_len: u8) -> AlgorithmIdentifier
where
    D: const_oid::AssociatedOid,
{
    let params = RsaPssParams::new::<D>(salt_len);
    let params_der = params.to_der().unwrap();
    // The parameters travel as an ANY: decode and re-encode them as such.
    let any = der::Any::from_der(&params_der).unwrap();
    AlgorithmIdentifier { oid: oid(&OID_RSASSA_PSS), parameters: Some(any.to_der().unwrap()) }
}

#[test]
fn test_pss_algid_uses_declared_salt_length() {
    // verify_signature_by_algid must honour the saltLength carried in
    // RSASSA-PSS-params (cert/CRL/OCSP paths), not assume the default.
    let key = rsa::RsaPrivateKey::new(&mut rand::thread_rng(), 2048).unwrap();
    let spki_der = rsa::RsaPublicKey::from(&key).to_public_key_der().unwrap().as_bytes().to_vec();

    let msg = b"tbs bytes to be signed with PSS";
    let signing = rsa::pss::SigningKey::<sha2::Sha256>::new_with_salt_len(key, 48);
    let sig = signing.sign_with_rng(&mut rand::thread_rng(), msg).to_vec();

    // Correct salt length declared -> verifies.
    verify_signature_by_algid(msg, &sig, &spki_der, &pss_algid::<sha2::Sha256>(48))
        .expect("PSS with declared salt 48 must verify");

    // Wrong (default) salt length declared -> fails.
    assert!(
        verify_signature_by_algid(msg, &sig, &spki_der, &pss_algid::<sha2::Sha256>(32)).is_err(),
        "PSS with mismatched declared salt length must fail"
    );
}

#[test]
fn test_pss_strict_requires_parameters() {
    // A bare RSASSA-PSS algid (no params) is rejected as unsupported.
    let bare = AlgorithmIdentifier { oid: oid(&OID_RSASSA_PSS), parameters: None };
    let err = verify_signature_by_algid(b"tbs", b"sig", b"spki", &bare).unwrap_err();
    assert!(
        matches!(err, TrustError::UnsupportedAlgorithm(_)),
        "PSS without parameters must be rejected, got {err:?}"
    );
}

#[test]
fn test_ed25519_oid_dispatches() {
    let ed_oid = oid(&OID_ED25519);
    let result = verify_signature_by_oid(b"tbs", b"sig", b"bad_spki", &ed_oid);
    assert!(result.is_err());
    let err_msg = result.unwrap_err().message();
    assert!(!err_msg.contains("unsupported"), "Ed25519 should be dispatched, not unsupported: {err_msg}");
}

#[test]
fn certificate_with_mismatched_algorithms_is_refused() {
    let ca = ca();
    let mut tampered = x509_cert::Certificate::from_der(&ca.der).unwrap();
    // Alter the unsigned outer signatureAlgorithm only.
    tampered.signature_algorithm.oid = const_oid::db::rfc5912::ECDSA_WITH_SHA_384;
    let cert = Certificate::from_der(&tampered.to_der().unwrap()).unwrap();
    assert_eq!(
        verify_certificate_signature(&cert, &ca.cert),
        Err(TrustError::SignatureVerification(Failure::AlgorithmMismatch))
    );
}

#[test]
fn certificate_that_does_not_decode() {
    assert_eq!(
        Certificate::from_der(b"not a certificate").err(),
        Some(TrustError::SignatureVerification(Failure::CertificateDecode))
    );
}

#[test]
fn certificate_signed_by_another_key_is_invalid() {
    let ca = ca();
    let other = ca_named("CN=Test Root CA,O=Test");
    assert_eq!(
        verify_certificate_signature(&ca.cert, &other.cert),
        Err(TrustError::SignatureVerification(Failure::SignatureInvalid(SignatureScheme::Ecdsa(
            Curve::P256,
            DigestAlgorithm::Sha256
        ))))
    );
}

fn ca_named(subject: &str) -> Issued {
    issue(subject, |_| Profile::Root, None)
}
