use const_oid::db::rfc5912;
use const_oid::ObjectIdentifier;

use tsp_ltv::crypto::algorithm::{
    AlgorithmIdentifier, DigestAlgorithm, OID_EC_PUBLIC_KEY, OID_ECDSA_WITH_SHA1,
    OID_ECDSA_WITH_SHA256, OID_ECDSA_WITH_SHA384, OID_ECDSA_WITH_SHA512, OID_ED25519, OID_MD5,
    OID_MD5_WITH_RSA, OID_MGF1, OID_RSASSA_PSS, OID_SECP256R1, OID_SECP384R1, OID_SECP521R1,
    OID_SHA1, OID_SHA1_WITH_RSA, OID_SHA224, OID_SHA224_WITH_RSA, OID_SHA256, OID_SHA256_WITH_RSA,
    OID_SHA384, OID_SHA384_WITH_RSA, OID_SHA512, OID_SHA512_WITH_RSA,
};
use tsp_ltv::crypto::oid::Oid;
use tsp_ltv::error::{Failure, TrustError, Unsupported};

fn same(constant: &[u8], dotted: &str) {
    assert_eq!(constant, ObjectIdentifier::new_unwrap(dotted).as_bytes(), "{dotted}");
}

#[test]
fn signature_algorithm_oids_encode_their_arcs() {
    same(&OID_MD5_WITH_RSA, "1.2.840.113549.1.1.4");
    same(&OID_SHA1_WITH_RSA, "1.2.840.113549.1.1.5");
    same(&OID_RSASSA_PSS, "1.2.840.113549.1.1.10");
    same(&OID_SHA224_WITH_RSA, "1.2.840.113549.1.1.14");
    same(&OID_MGF1, "1.2.840.113549.1.1.8");
    same(&OID_ECDSA_WITH_SHA1, "1.2.840.10045.4.1");
    same(&OID_ED25519, "1.3.101.112");
    assert_eq!(&OID_SHA256_WITH_RSA[..], rfc5912::SHA_256_WITH_RSA_ENCRYPTION.as_bytes());
    assert_eq!(&OID_SHA384_WITH_RSA[..], rfc5912::SHA_384_WITH_RSA_ENCRYPTION.as_bytes());
    assert_eq!(&OID_SHA512_WITH_RSA[..], rfc5912::SHA_512_WITH_RSA_ENCRYPTION.as_bytes());
    assert_eq!(&OID_ECDSA_WITH_SHA256[..], rfc5912::ECDSA_WITH_SHA_256.as_bytes());
    assert_eq!(&OID_ECDSA_WITH_SHA384[..], rfc5912::ECDSA_WITH_SHA_384.as_bytes());
    assert_eq!(&OID_ECDSA_WITH_SHA512[..], rfc5912::ECDSA_WITH_SHA_512.as_bytes());
}

#[test]
fn key_and_digest_oids_encode_their_arcs() {
    assert_eq!(&OID_EC_PUBLIC_KEY[..], rfc5912::ID_EC_PUBLIC_KEY.as_bytes());
    assert_eq!(&OID_SECP256R1[..], rfc5912::SECP_256_R_1.as_bytes());
    assert_eq!(&OID_SECP384R1[..], rfc5912::SECP_384_R_1.as_bytes());
    assert_eq!(&OID_SECP521R1[..], rfc5912::SECP_521_R_1.as_bytes());
    assert_eq!(&OID_MD5[..], rfc5912::ID_MD_5.as_bytes());
    assert_eq!(&OID_SHA1[..], rfc5912::ID_SHA_1.as_bytes());
    assert_eq!(&OID_SHA224[..], rfc5912::ID_SHA_224.as_bytes());
    assert_eq!(&OID_SHA256[..], rfc5912::ID_SHA_256.as_bytes());
    assert_eq!(&OID_SHA384[..], rfc5912::ID_SHA_384.as_bytes());
    assert_eq!(&OID_SHA512[..], rfc5912::ID_SHA_512.as_bytes());
}

#[test]
fn digest_algorithm_from_oid() {
    let of = |b: &[u8]| DigestAlgorithm::from_oid(&Oid::from_content_bytes(b.to_vec()));
    assert_eq!(of(&OID_MD5), Some(DigestAlgorithm::Md5));
    assert_eq!(of(&OID_SHA1), Some(DigestAlgorithm::Sha1));
    assert_eq!(of(&OID_SHA224), Some(DigestAlgorithm::Sha224));
    assert_eq!(of(&OID_SHA256), Some(DigestAlgorithm::Sha256));
    assert_eq!(of(&OID_SHA384), Some(DigestAlgorithm::Sha384));
    assert_eq!(of(&OID_SHA512), Some(DigestAlgorithm::Sha512));
    assert_eq!(of(&OID_SHA256_WITH_RSA), None);
    assert_eq!(of(&[]), None);
}

#[test]
fn digest_output_lengths() {
    assert_eq!(DigestAlgorithm::Md5.output_len(), 16);
    assert_eq!(DigestAlgorithm::Sha1.output_len(), 20);
    assert_eq!(DigestAlgorithm::Sha224.output_len(), 28);
    assert_eq!(DigestAlgorithm::Sha256.output_len(), 32);
    assert_eq!(DigestAlgorithm::Sha384.output_len(), 48);
    assert_eq!(DigestAlgorithm::Sha512.output_len(), 64);
}

#[test]
fn oid_comparison() {
    let a = Oid::from_content_bytes(OID_SHA256.to_vec());
    let b = Oid::from_content_bytes(OID_SHA256.to_vec());
    let c = Oid::from_content_bytes(OID_SHA384.to_vec());
    assert!(a.same_as(&b));
    assert!(!a.same_as(&c));
    assert!(a.is(&OID_SHA256));
    assert!(!a.is(&OID_SHA256[..8]));
    assert_eq!(a.as_bytes(), &OID_SHA256[..]);
}

#[test]
fn algorithm_identifier_comparison() {
    let alg = |params: Option<Vec<u8>>| AlgorithmIdentifier {
        oid: Oid::from_content_bytes(OID_SHA256_WITH_RSA.to_vec()),
        parameters: params,
    };
    assert!(alg(None).same_as(&alg(None)));
    assert!(alg(Some(vec![5, 0])).same_as(&alg(Some(vec![5, 0]))));
    assert!(!alg(None).same_as(&alg(Some(vec![5, 0]))));
    assert!(!alg(Some(vec![5, 0])).same_as(&alg(Some(vec![5, 1]))));
}

#[test]
fn error_messages() {
    let u = TrustError::UnsupportedAlgorithm(Unsupported::SignatureAlgorithm);
    let f = TrustError::SignatureVerification(Failure::SpkiDecode);
    assert_eq!(u.message(), "unsupported algorithm");
    assert_eq!(f.message(), "signature verification failed");
}
