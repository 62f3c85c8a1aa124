//! X.509 certificates (`x509-cert`) and the DER encodings of their parts.
//!
//! Verus refuses to declare `x509_cert::Certificate` (it is generic over a
//! profile trait of that crate), so it is held in an opaque struct here.

use vstd::prelude::*;
use der::{Decode, Encode};
use super::Decoded;
use crate::crypto::oid::Oid;

verus! {

/// A decoded X.509 certificate.
#[verifier::external_body]
pub struct X509Certificate {
    cert: x509_cert::Certificate,
}

/// Whether `der` is a DER X.509 certificate.
pub uninterp spec fn certificate_decodes(der: Seq<u8>) -> bool;

/// The DER encoding of the `tbsCertificate` of the certificate `der`, or
/// `None` where it cannot be encoded.
pub uninterp spec fn tbs_certificate_encoding(der: Seq<u8>) -> Option<Seq<u8>>;

/// The DER encoding of the `subjectPublicKeyInfo` of the certificate `der`,
/// or `None` where it cannot be encoded.
pub uninterp spec fn subject_public_key_info_encoding(der: Seq<u8>) -> Option<Seq<u8>>;

/// The bytes of the `signature` BIT STRING of the certificate `der`.
pub uninterp spec fn certificate_signature_bits(der: Seq<u8>) -> Seq<u8>;

/// Whether the outer `signatureAlgorithm` of the certificate `der` equals its
/// signed `tbsCertificate.signature` (OID and parameters).
pub uninterp spec fn certificate_algorithms_agree(der: Seq<u8>) -> bool;

/// The OID of the outer `signatureAlgorithm` of the certificate `der`.
pub uninterp spec fn certificate_signature_algorithm_oid(der: Seq<u8>) -> Seq<u8>;

/// The DER encoding of the parameters of the outer `signatureAlgorithm` of
/// the certificate `der` (`Some(None)` where there are none), or `None` where
/// they cannot be encoded.
pub uninterp spec fn certificate_signature_parameters_encoding(der: Seq<u8>) -> Option<Option<Seq<u8>>>;

/// `x509_cert::Certificate::from_der`.
#[verifier::external_body]
pub(crate) fn decode_certificate(der: &[u8]) -> (res: Result<Decoded<X509Certificate>, der::Error>)
    ensures
        res is Ok <==> certificate_decodes(der@),
        res matches Ok(c) ==> c@ == der@,
{
    x509_cert::Certificate::from_der(der).map(|cert| Decoded { value: X509Certificate { cert }, source: Ghost(der@) })
}

/// `Encode::to_der` of the certificate's `tbs_certificate`.
#[verifier::external_body]
pub(crate) fn encode_tbs_certificate(cert: &Decoded<X509Certificate>) -> (res: Result<Vec<u8>, der::Error>)
    ensures
        res is Ok <==> tbs_certificate_encoding(cert@) is Some,
        res matches Ok(b) ==> Some(b@) == tbs_certificate_encoding(cert@),
{
    cert.value.cert.tbs_certificate.to_der()
}

/// `Encode::to_der` of the certificate's `subject_public_key_info`.
#[verifier::external_body]
pub(crate) fn encode_subject_public_key_info(cert: &Decoded<X509Certificate>) -> (res: Result<Vec<u8>, der::Error>)
    ensures
        res is Ok <==> subject_public_key_info_encoding(cert@) is Some,
        res matches Ok(b) ==> Some(b@) == subject_public_key_info_encoding(cert@),
{
    cert.value.cert.tbs_certificate.subject_public_key_info.to_der()
}

/// `BitString::raw_bytes` of the certificate's `signature`.
#[verifier::external_body]
pub(crate) fn signature_bits(cert: &Decoded<X509Certificate>) -> (res: Vec<u8>)
    ensures
        res@ == certificate_signature_bits(cert@),
{
    cert.value.cert.signature.raw_bytes().to_vec()
}

/// `==` on `AlgorithmIdentifierOwned`: compares the certificate's outer
/// `signature_algorithm` with its signed `tbs_certificate.signature`.
#[verifier::external_body]
pub(crate) fn signature_algorithms_agree(cert: &Decoded<X509Certificate>) -> (res: bool)
    ensures
        res == certificate_algorithms_agree(cert@),
{
    cert.value.cert.signature_algorithm == cert.value.cert.tbs_certificate.signature
}

/// `ObjectIdentifier::as_bytes` of the certificate's outer
/// `signature_algorithm` OID.
#[verifier::external_body]
pub(crate) fn signature_algorithm_oid(cert: &Decoded<X509Certificate>) -> (res: Oid)
    ensures
        res@ == certificate_signature_algorithm_oid(cert@),
{
    Oid::from_content_bytes(cert.value.cert.signature_algorithm.oid.as_bytes().to_vec())
}

/// `Encode::to_der` of the parameters of the certificate's outer
/// `signature_algorithm`, where there are any.
#[verifier::external_body]
pub(crate) fn encode_signature_algorithm_parameters(cert: &Decoded<X509Certificate>) -> (res: Result<Option<Vec<u8>>, der::Error>)
    ensures
        res is Ok <==> certificate_signature_parameters_encoding(cert@) is Some,
        res matches Ok(p) ==> Some(crate::crypto::algorithm::opt_bytes_view(p))
            == certificate_signature_parameters_encoding(cert@),
{
    cert.value.cert.signature_algorithm.parameters.as_ref().map(|p| p.to_der()).transpose()
}

} // verus!
