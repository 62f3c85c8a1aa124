//! Errors of signature verification.

use vstd::prelude::*;
use crate::crypto::algorithm::DigestAlgorithm;

verus! {

/// A NIST elliptic curve.
#[derive(Clone, Copy, Debug, PartialEq, Eq, Structural)]
pub enum Curve {
    P256,
    P384,
    P521,
}

/// The kind of public key that a step expected.
#[derive(Clone, Copy, Debug, PartialEq, Eq, Structural)]
pub enum KeyKind {
    Rsa,
    /// An elliptic-curve key whose curve is not yet known.
    Ec,
    P256,
    P384,
    P521,
    Ed25519,
}

/// A signature scheme: the algorithm, and the digest it signs.
#[derive(Clone, Copy, Debug, PartialEq, Eq, Structural)]
pub enum SignatureScheme {
    RsaPkcs1v15(DigestAlgorithm),
    RsaPss(DigestAlgorithm),
    Ecdsa(Curve, DigestAlgorithm),
    Ed25519,
}

/// Why an algorithm was refused as unsupported.
#[derive(Clone, Copy, Debug, PartialEq, Eq, Structural)]
pub enum Unsupported {
    /// The signature algorithm identifier is not one this library verifies.
    SignatureAlgorithm,
    /// An RSASSA-PSS algorithm identifier came without its parameters.
    PssParametersMissing,
    /// The PSS `hashAlgorithm` is not a known digest.
    PssHashAlgorithm,
    /// The PSS `maskGenAlgorithm` is not MGF1.
    PssMaskGenAlgorithm,
    /// The MGF1 hash is absent or differs from the message hash.
    PssMaskGenHash,
    /// PSS with a digest other than SHA-256, SHA-384 or SHA-512.
    PssDigest(DigestAlgorithm),
}

/// The step at which a verification failed.
#[derive(Clone, Copy, Debug, PartialEq, Eq, Structural)]
pub enum Failure {
    /// The SubjectPublicKeyInfo did not decode.
    SpkiDecode,
    /// The SubjectPublicKeyInfo does not hold a usable key of this kind.
    KeyDecode(KeyKind),
    /// The signature bytes did not decode for this kind of key.
    SignatureDecode(KeyKind),
    /// The signature does not verify under this scheme.
    SignatureInvalid(SignatureScheme),
    /// The RSASSA-PSS parameters did not decode.
    PssParametersDecode,
    /// A certificate did not decode.
    CertificateDecode,
    /// The named curve of an EC key is not P-256, P-384 or P-521.
    UnknownCurve,
    /// The key's curve and the digest that the signature algorithm declares
    /// are not an accepted pairing.
    CurveDigestMismatch(Curve, DigestAlgorithm),
    /// The parameters of a certificate's signature algorithm could not be
    /// re-encoded.
    AlgorithmEncode,
    /// The outer signature algorithm differs from the signed inner one.
    AlgorithmMismatch,
    /// The TBS part of a certificate could not be encoded.
    TbsEncode,
    /// The issuer's SubjectPublicKeyInfo could not be encoded.
    SpkiEncode,
}

/// An error of signature verification.
#[derive(Clone, Copy, Debug, PartialEq, Eq, Structural)]
pub enum TrustError {
    UnsupportedAlgorithm(Unsupported),
    SignatureVerification(Failure),
}

/// The text that describes an error.
pub open spec fn spec_message(e: TrustError) -> Seq<char> {
    match e {
        TrustError::UnsupportedAlgorithm(_) => "unsupported algorithm"@,
        TrustError::SignatureVerification(_) => "signature verification failed"@,
    }
}

impl TrustError {
    /// A short description of the error.
    pub fn message(&self) -> (res: &'static str)
        ensures
            res@ == spec_message(*self),
    {
        match self {
            TrustError::UnsupportedAlgorithm(_) => "unsupported algorithm",
            TrustError::SignatureVerification(_) => "signature verification failed",
        }
    }
}

} // verus!
