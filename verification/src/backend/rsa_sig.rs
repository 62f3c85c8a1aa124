//! RSA public keys and RSA signature verification (`rsa` crate).

use vstd::prelude::*;
use rsa::pkcs8::DecodePublicKey;
use super::Decoded;
use crate::crypto::algorithm::{DigestAlgorithm, PssParams};
use crate::crypto::oid::Oid;

verus! {

/// The `RsaPublicKey` type of the `rsa` crate.
#[verifier::external_type_specification]
#[verifier::external_body]
pub struct ExRsaPublicKey(rsa::RsaPublicKey);

/// An RSA signature padding: PKCS#1 v1.5 for a digest, or PSS for a digest
/// (with MGF1 over the same digest) and a salt length.
#[derive(Clone, Copy, Debug, PartialEq, Eq, Structural)]
pub enum RsaPadding {
    Pkcs1v15(DigestAlgorithm),
    Pss(DigestAlgorithm, usize),
}

/// Whether `spki` (a DER SubjectPublicKeyInfo) holds an RSA public key that
/// the `rsa` crate accepts.
pub uninterp spec fn rsa_public_key_decodes(spki: Seq<u8>) -> bool;

/// Whether the RSA key of `spki` accepts `sig` as a signature, under
/// `padding`, over the digest `hashed`.
pub uninterp spec fn rsa_signature_accepted(spki: Seq<u8>, padding: RsaPadding, hashed: Seq<u8>, sig: Seq<u8>) -> bool;

/// The fields of the `RSASSA-PSS-params` that `der` encodes, or `None` where
/// it does not decode.
pub uninterp spec fn rsa_pss_params_decoding(der: Seq<u8>) -> Option<(Seq<u8>, Seq<u8>, Option<Seq<u8>>, u8)>;

/// `RsaPublicKey::from_public_key_der` (`spki::DecodePublicKey`): decodes the
/// SubjectPublicKeyInfo and converts it into an RSA public key; fails where
/// either step fails.
#[verifier::external_body]
pub(crate) fn decode_rsa_public_key(spki_der: &[u8]) -> (res: Result<Decoded<rsa::RsaPublicKey>, spki::Error>)
    ensures
        res is Ok <==> rsa_public_key_decodes(spki_der@),
        res matches Ok(k) ==> k@ == spki_der@,
{
    rsa::RsaPublicKey::from_public_key_der(spki_der).map(|value| Decoded { value, source: Ghost(spki_der@) })
}

/// `rsa::pkcs1::RsaPssParams::try_from`: decodes DER `RSASSA-PSS-params`
/// (absent fields take their RFC 8017 defaults) and hands out the OIDs of the
/// hash, of the mask generation function and of its hash, and the salt length.
#[verifier::external_body]
pub(crate) fn decode_rsa_pss_params(der: &[u8]) -> (res: Result<PssParams, rsa::pkcs1::Error>)
    ensures
        res is Ok <==> rsa_pss_params_decoding(der@) is Some,
        res matches Ok(p) ==> Some(p@) == rsa_pss_params_decoding(der@),
{
    rsa::pkcs1::RsaPssParams::try_from(der).map(|p| PssParams {
        hash: Oid::from_content_bytes(p.hash.oid.as_bytes().to_vec()),
        mask_gen: Oid::from_content_bytes(p.mask_gen.oid.as_bytes().to_vec()),
        mask_gen_hash: p.mask_gen.parameters.map(|h| Oid::from_content_bytes(h.oid.as_bytes().to_vec())),
        salt_len: p.salt_len,
    })
}

/// `RsaPublicKey::verify` with `Pkcs1v15Sign::new::<md5::Md5>()`: checks an RSA
/// PKCS#1 v1.5 signature over the MD5 digest `hashed`.
#[verifier::external_body]
pub(crate) fn verify_pkcs1v15_md5(key: &Decoded<rsa::RsaPublicKey>, hashed: &[u8], sig: &[u8]) -> (res: Result<(), rsa::Error>)
    ensures
        res is Ok <==> rsa_signature_accepted(key@, RsaPadding::Pkcs1v15(DigestAlgorithm::Md5), hashed@, sig@),
{
    key.value.verify(rsa::Pkcs1v15Sign::new::<md5::Md5>(), hashed, sig)
}

/// `RsaPublicKey::verify` with `Pkcs1v15Sign::new::<sha1::Sha1>()`: checks an RSA
/// PKCS#1 v1.5 signature over the SHA1 digest `hashed`.
#[verifier::external_body]
pub(crate) fn verify_pkcs1v15_sha1(key: &Decoded<rsa::RsaPublicKey>, hashed: &[u8], sig: &[u8]) -> (res: Result<(), rsa::Error>)
    ensures
        res is Ok <==> rsa_signature_accepted(key@, RsaPadding::Pkcs1v15(DigestAlgorithm::Sha1), hashed@, sig@),
{
    key.value.verify(rsa::Pkcs1v15Sign::new::<sha1::Sha1>(), hashed, sig)
}

/// `RsaPublicKey::verify` with `Pkcs1v15Sign::new::<sha2::Sha224>()`: checks an RSA
/// PKCS#1 v1.5 signature over the SHA224 digest `hashed`.
#[verifier::external_body]
pub(crate) fn verify_pkcs1v15_sha224(key: &Decoded<rsa::RsaPublicKey>, hashed: &[u8], sig: &[u8]) -> (res: Result<(), rsa::Error>)
    ensures
        res is Ok <==> rsa_signature_accepted(key@, RsaPadding::Pkcs1v15(DigestAlgorithm::Sha224), hashed@, sig@),
{
    key.value.verify(rsa::Pkcs1v15Sign::new::<sha2::Sha224>(), hashed, sig)
}

/// `RsaPublicKey::verify` with `Pkcs1v15Sign::new::<sha2::Sha256>()`: checks an RSA
/// PKCS#1 v1.5 signature over the SHA256 digest `hashed`.
#[verifier::external_body]
pub(crate) fn verify_pkcs1v15_sha256(key: &Decoded<rsa::RsaPublicKey>, hashed: &[u8], sig: &[u8]) -> (res: Result<(), rsa::Error>)
    ensures
        res is Ok <==> rsa_signature_accepted(key@, RsaPadding::Pkcs1v15(DigestAlgorithm::Sha256), hashed@, sig@),
{
    key.value.verify(rsa::Pkcs1v15Sign::new::<sha2::Sha256>(), hashed, sig)
}

/// `RsaPublicKey::verify` with `Pkcs1v15Sign::new::<sha2::Sha384>()`: checks an RSA
/// PKCS#1 v1.5 signature over the SHA384 digest `hashed`.
#[verifier::external_body]
pub(crate) fn verify_pkcs1v15_sha384(key: &Decoded<rsa::RsaPublicKey>, hashed: &[u8], sig: &[u8]) -> (res: Result<(), rsa::Error>)
    ensures
        res is Ok <==> rsa_signature_accepted(key@, RsaPadding::Pkcs1v15(DigestAlgorithm::Sha384), hashed@, sig@),
{
    key.value.verify(rsa::Pkcs1v15Sign::new::<sha2::Sha384>(), hashed, sig)
}

/// `RsaPublicKey::verify` with `Pkcs1v15Sign::new::<sha2::Sha512>()`: checks an RSA
/// PKCS#1 v1.5 signature over the SHA512 digest `hashed`.
#[verifier::external_body]
pub(crate) fn verify_pkcs1v15_sha512(key: &Decoded<rsa::RsaPublicKey>, hashed: &[u8], sig: &[u8]) -> (res: Result<(), rsa::Error>)
    ensures
        res is Ok <==> rsa_signature_accepted(key@, RsaPadding::Pkcs1v15(DigestAlgorithm::Sha512), hashed@, sig@),
{
    key.value.verify(rsa::Pkcs1v15Sign::new::<sha2::Sha512>(), hashed, sig)
}

/// `RsaPublicKey::verify` with `Pss::new_with_salt::<md5::Md5>(salt_len)`: checks
/// an RSASSA-PSS signature (MGF1 over MD5) over the digest `hashed`.
/// The crate computes `16 + salt_len + 2`, which must not overflow.
/// The salt length is read off the recovered encoding (the position of the
/// 0x01 separator after the zero padding), so a signature that verifies with
/// one salt length verifies with no other.
#[verifier::external_body]
pub(crate) fn verify_pss_md5(key: &Decoded<rsa::RsaPublicKey>, salt_len: usize, hashed: &[u8], sig: &[u8]) -> (res: Result<(), rsa::Error>)
    requires
        salt_len + 16 + 2 <= usize::MAX,
    ensures
        res is Ok <==> rsa_signature_accepted(key@, RsaPadding::Pss(DigestAlgorithm::Md5, salt_len), hashed@, sig@),
        res is Ok ==> forall|other: usize| other != salt_len && other + 16 + 2 <= usize::MAX
            ==> !#[trigger] rsa_signature_accepted(key@, RsaPadding::Pss(DigestAlgorithm::Md5, other), hashed@, sig@),
{
    key.value.verify(rsa::pss::Pss::new_with_salt::<md5::Md5>(salt_len), hashed, sig)
}

/// `RsaPublicKey::verify` with `Pss::new_with_salt::<sha1::Sha1>(salt_len)`: checks
/// an RSASSA-PSS signature (MGF1 over SHA1) over the digest `hashed`.
/// The crate computes `20 + salt_len + 2`, which must not overflow.
/// The salt length is read off the recovered encoding (the position of the
/// 0x01 separator after the zero padding), so a signature that verifies with
/// one salt length verifies with no other.
#[verifier::external_body]
pub(crate) fn verify_pss_sha1(key: &Decoded<rsa::RsaPublicKey>, salt_len: usize, hashed: &[u8], sig: &[u8]) -> (res: Result<(), rsa::Error>)
    requires
        salt_len + 20 + 2 <= usize::MAX,
    ensures
        res is Ok <==> rsa_signature_accepted(key@, RsaPadding::Pss(DigestAlgorithm::Sha1, salt_len), hashed@, sig@),
        res is Ok ==> forall|other: usize| other != salt_len && other + 20 + 2 <= usize::MAX
            ==> !#[trigger] rsa_signature_accepted(key@, RsaPadding::Pss(DigestAlgorithm::Sha1, other), hashed@, sig@),
{
    key.value.verify(rsa::pss::Pss::new_with_salt::<sha1::Sha1>(salt_len), hashed, sig)
}

/// `RsaPublicKey::verify` with `Pss::new_with_salt::<sha2::Sha224>(salt_len)`: checks
/// an RSASSA-PSS signature (MGF1 over SHA224) over the digest `hashed`.
/// The crate computes `28 + salt_len + 2`, which must not overflow.
/// The salt length is read off the recovered encoding (the position of the
/// 0x01 separator after the zero padding), so a signature that verifies with
/// one salt length verifies with no other.
#[verifier::external_body]
pub(crate) fn verify_pss_sha224(key: &Decoded<rsa::RsaPublicKey>, salt_len: usize, hashed: &[u8], sig: &[u8]) -> (res: Result<(), rsa::Error>)
    requires
        salt_len + 28 + 2 <= usize::MAX,
    ensures
        res is Ok <==> rsa_signature_accepted(key@, RsaPadding::Pss(DigestAlgorithm::Sha224, salt_len), hashed@, sig@),
        res is Ok ==> forall|other: usize| other != salt_len && other + 28 + 2 <= usize::MAX
            ==> !#[trigger] rsa_signature_accepted(key@, RsaPadding::Pss(DigestAlgorithm::Sha224, other), hashed@, sig@),
{
    key.value.verify(rsa::pss::Pss::new_with_salt::<sha2::Sha224>(salt_len), hashed, sig)
}

/// `RsaPublicKey::verify` with `Pss::new_with_salt::<sha2::Sha256>(salt_len)`: checks
/// an RSASSA-PSS signature (MGF1 over SHA256) over the digest `hashed`.
/// The crate computes `32 + salt_len + 2`, which must not overflow.
/// The salt length is read off the recovered encoding (the position of the
/// 0x01 separator after the zero padding), so a signature that verifies with
/// one salt length verifies with no other.
#[verifier::external_body]
pub(crate) fn verify_pss_sha256(key: &Decoded<rsa::RsaPublicKey>, salt_len: usize, hashed: &[u8], sig: &[u8]) -> (res: Result<(), rsa::Error>)
    requires
        salt_len + 32 + 2 <= usize::MAX,
    ensures
        res is Ok <==> rsa_signature_accepted(key@, RsaPadding::Pss(DigestAlgorithm::Sha256, salt_len), hashed@, sig@),
        res is Ok ==> forall|other: usize| other != salt_len && other + 32 + 2 <= usize::MAX
            ==> !#[trigger] rsa_signature_accepted(key@, RsaPadding::Pss(DigestAlgorithm::Sha256, other), hashed@, sig@),
{
    key.value.verify(rsa::pss::Pss::new_with_salt::<sha2::Sha256>(salt_len), hashed, sig)
}

/// `RsaPublicKey::verify` with `Pss::new_with_salt::<sha2::Sha384>(salt_len)`: checks
/// an RSASSA-PSS signature (MGF1 over SHA384) over the digest `hashed`.
/// The crate computes `48 + salt_len + 2`, which must not overflow.
/// The salt length is read off the recovered encoding (the position of the
/// 0x01 separator after the zero padding), so a signature that verifies with
/// one salt length verifies with no other.
#[verifier::external_body]
pub(crate) fn verify_pss_sha384(key: &Decoded<rsa::RsaPublicKey>, salt_len: usize, hashed: &[u8], sig: &[u8]) -> (res: Result<(), rsa::Error>)
    requires
        salt_len + 48 + 2 <= usize::MAX,
    ensures
        res is Ok <==> rsa_signature_accepted(key@, RsaPadding::Pss(DigestAlgorithm::Sha384, salt_len), hashed@, sig@),
        res is Ok ==> forall|other: usize| other != salt_len && other + 48 + 2 <= usize::MAX
            ==> !#[trigger] rsa_signature_accepted(key@, RsaPadding::Pss(DigestAlgorithm::Sha384, other), hashed@, sig@),
{
    key.value.verify(rsa::pss::Pss::new_with_salt::<sha2::Sha384>(salt_len), hashed, sig)
}

/// `RsaPublicKey::verify` with `Pss::new_with_salt::<sha2::Sha512>(salt_len)`: checks
/// an RSASSA-PSS signature (MGF1 over SHA512) over the digest `hashed`.
/// The crate computes `64 + salt_len + 2`, which must not overflow.
/// The salt length is read off the recovered encoding (the position of the
/// 0x01 separator after the zero padding), so a signature that verifies with
/// one salt length verifies with no other.
#[verifier::external_body]
pub(crate) fn verify_pss_sha512(key: &Decoded<rsa::RsaPublicKey>, salt_len: usize, hashed: &[u8], sig: &[u8]) -> (res: Result<(), rsa::Error>)
    requires
        salt_len + 64 + 2 <= usize::MAX,
    ensures
        res is Ok <==> rsa_signature_accepted(key@, RsaPadding::Pss(DigestAlgorithm::Sha512, salt_len), hashed@, sig@),
        res is Ok ==> forall|other: usize| other != salt_len && other + 64 + 2 <= usize::MAX
            ==> !#[trigger] rsa_signature_accepted(key@, RsaPadding::Pss(DigestAlgorithm::Sha512, other), hashed@, sig@),
{
    key.value.verify(rsa::pss::Pss::new_with_salt::<sha2::Sha512>(salt_len), hashed, sig)
}

} // verus!
