//! Algorithm identifiers: the object identifiers this library recognises and
//! the digest algorithms they name.

use vstd::prelude::*;
use crate::crypto::oid::Oid;

verus! {

// Signature algorithm identifiers (content octets of the DER encoding).

/// md5WithRSAEncryption, 1.2.840.113549.1.1.4 (legacy).
pub const OID_MD5_WITH_RSA: [u8; 9] = [0x2a, 0x86, 0x48, 0x86, 0xf7, 0x0d, 0x01, 0x01, 0x04];
/// sha1WithRSAEncryption, 1.2.840.113549.1.1.5 (legacy).
pub const OID_SHA1_WITH_RSA: [u8; 9] = [0x2a, 0x86, 0x48, 0x86, 0xf7, 0x0d, 0x01, 0x01, 0x05];
/// id-RSASSA-PSS, 1.2.840.113549.1.1.10.
pub const OID_RSASSA_PSS: [u8; 9] = [0x2a, 0x86, 0x48, 0x86, 0xf7, 0x0d, 0x01, 0x01, 0x0a];
/// sha256WithRSAEncryption, 1.2.840.113549.1.1.11.
pub const OID_SHA256_WITH_RSA: [u8; 9] = [0x2a, 0x86, 0x48, 0x86, 0xf7, 0x0d, 0x01, 0x01, 0x0b];
/// sha384WithRSAEncryption, 1.2.840.113549.1.1.12.
pub const OID_SHA384_WITH_RSA: [u8; 9] = [0x2a, 0x86, 0x48, 0x86, 0xf7, 0x0d, 0x01, 0x01, 0x0c];
/// sha512WithRSAEncryption, 1.2.840.113549.1.1.13.
pub const OID_SHA512_WITH_RSA: [u8; 9] = [0x2a, 0x86, 0x48, 0x86, 0xf7, 0x0d, 0x01, 0x01, 0x0d];
/// sha224WithRSAEncryption, 1.2.840.113549.1.1.14.
pub const OID_SHA224_WITH_RSA: [u8; 9] = [0x2a, 0x86, 0x48, 0x86, 0xf7, 0x0d, 0x01, 0x01, 0x0e];
/// id-mgf1, 1.2.840.113549.1.1.8: the mask generation function of PSS.
pub const OID_MGF1: [u8; 9] = [0x2a, 0x86, 0x48, 0x86, 0xf7, 0x0d, 0x01, 0x01, 0x08];
/// ecdsa-with-SHA1, 1.2.840.10045.4.1 (legacy).
pub const OID_ECDSA_WITH_SHA1: [u8; 7] = [0x2a, 0x86, 0x48, 0xce, 0x3d, 0x04, 0x01];
/// ecdsa-with-SHA256, 1.2.840.10045.4.3.2.
pub const OID_ECDSA_WITH_SHA256: [u8; 8] = [0x2a, 0x86, 0x48, 0xce, 0x3d, 0x04, 0x03, 0x02];
/// ecdsa-with-SHA384, 1.2.840.10045.4.3.3.
pub const OID_ECDSA_WITH_SHA384: [u8; 8] = [0x2a, 0x86, 0x48, 0xce, 0x3d, 0x04, 0x03, 0x03];
/// ecdsa-with-SHA512, 1.2.840.10045.4.3.4.
pub const OID_ECDSA_WITH_SHA512: [u8; 8] = [0x2a, 0x86, 0x48, 0xce, 0x3d, 0x04, 0x03, 0x04];
/// id-Ed25519, 1.3.101.112.
pub const OID_ED25519: [u8; 3] = [0x2b, 0x65, 0x70];

// Public key algorithm and named curves.

/// id-ecPublicKey, 1.2.840.10045.2.1.
pub const OID_EC_PUBLIC_KEY: [u8; 7] = [0x2a, 0x86, 0x48, 0xce, 0x3d, 0x02, 0x01];
/// secp256r1 (NIST P-256), 1.2.840.10045.3.1.7.
pub const OID_SECP256R1: [u8; 8] = [0x2a, 0x86, 0x48, 0xce, 0x3d, 0x03, 0x01, 0x07];
/// secp384r1 (NIST P-384), 1.3.132.0.34.
pub const OID_SECP384R1: [u8; 5] = [0x2b, 0x81, 0x04, 0x00, 0x22];
/// secp521r1 (NIST P-521), 1.3.132.0.35.
pub const OID_SECP521R1: [u8; 5] = [0x2b, 0x81, 0x04, 0x00, 0x23];

// Digest algorithms.

/// id-md5, 1.2.840.113549.2.5.
pub const OID_MD5: [u8; 8] = [0x2a, 0x86, 0x48, 0x86, 0xf7, 0x0d, 0x02, 0x05];
/// id-sha1, 1.3.14.3.2.26.
pub const OID_SHA1: [u8; 5] = [0x2b, 0x0e, 0x03, 0x02, 0x1a];
/// id-sha224, 2.16.840.1.101.3.4.2.4.
pub const OID_SHA224: [u8; 9] = [0x60, 0x86, 0x48, 0x01, 0x65, 0x03, 0x04, 0x02, 0x04];
/// id-sha256, 2.16.840.1.101.3.4.2.1.
pub const OID_SHA256: [u8; 9] = [0x60, 0x86, 0x48, 0x01, 0x65, 0x03, 0x04, 0x02, 0x01];
/// id-sha384, 2.16.840.1.101.3.4.2.2.
pub const OID_SHA384: [u8; 9] = [0x60, 0x86, 0x48, 0x01, 0x65, 0x03, 0x04, 0x02, 0x02];
/// id-sha512, 2.16.840.1.101.3.4.2.3.
pub const OID_SHA512: [u8; 9] = [0x60, 0x86, 0x48, 0x01, 0x65, 0x03, 0x04, 0x02, 0x03];

/// A message digest algorithm.
#[derive(Clone, Copy, Debug, PartialEq, Eq, Structural)]
pub enum DigestAlgorithm {
    Md5,
    Sha1,
    Sha224,
    Sha256,
    Sha384,
    Sha512,
}

/// The digest algorithm that an object identifier names, if any.
pub open spec fn spec_digest_from_oid(oid: Seq<u8>) -> Option<DigestAlgorithm> {
    if oid == OID_MD5@ {
        Some(DigestAlgorithm::Md5)
    } else if oid == OID_SHA1@ {
        Some(DigestAlgorithm::Sha1)
    } else if oid == OID_SHA224@ {
        Some(DigestAlgorithm::Sha224)
    } else if oid == OID_SHA256@ {
        Some(DigestAlgorithm::Sha256)
    } else if oid == OID_SHA384@ {
        Some(DigestAlgorithm::Sha384)
    } else if oid == OID_SHA512@ {
        Some(DigestAlgorithm::Sha512)
    } else {
        None
    }
}

/// The length in bytes of a digest of this algorithm.
pub open spec fn spec_output_len(d: DigestAlgorithm) -> nat {
    match d {
        DigestAlgorithm::Md5 => 16,
        DigestAlgorithm::Sha1 => 20,
        DigestAlgorithm::Sha224 => 28,
        DigestAlgorithm::Sha256 => 32,
        DigestAlgorithm::Sha384 => 48,
        DigestAlgorithm::Sha512 => 64,
    }
}

impl DigestAlgorithm {
    /// The digest algorithm named by a digest algorithm identifier.
    pub fn from_oid(oid: &Oid) -> (res: Option<DigestAlgorithm>)
        ensures
            res == spec_digest_from_oid(oid@),
    {
        if oid.is(&OID_MD5) {
            Some(DigestAlgorithm::Md5)
        } else if oid.is(&OID_SHA1) {
            Some(DigestAlgorithm::Sha1)
        } else if oid.is(&OID_SHA224) {
            Some(DigestAlgorithm::Sha224)
        } else if oid.is(&OID_SHA256) {
            Some(DigestAlgorithm::Sha256)
        } else if oid.is(&OID_SHA384) {
            Some(DigestAlgorithm::Sha384)
        } else if oid.is(&OID_SHA512) {
            Some(DigestAlgorithm::Sha512)
        } else {
            None
        }
    }

    /// The length in bytes of a digest of this algorithm (the default PSS
    /// salt length).
    pub fn output_len(&self) -> (res: usize)
        ensures
            res == spec_output_len(*self),
    {
        match self {
            DigestAlgorithm::Md5 => 16,
            DigestAlgorithm::Sha1 => 20,
            DigestAlgorithm::Sha224 => 28,
            DigestAlgorithm::Sha256 => 32,
            DigestAlgorithm::Sha384 => 48,
            DigestAlgorithm::Sha512 => 64,
        }
    }
}

/// The view of an optional byte vector.
pub open spec fn opt_bytes_view(v: Option<Vec<u8>>) -> Option<Seq<u8>> {
    match v {
        Some(b) => Some(b@),
        None => None,
    }
}

/// An X.509 `AlgorithmIdentifier`: an algorithm OID and, where present, the
/// DER encoding of its parameters (tag, length and value).
#[derive(Clone, Debug)]
pub struct AlgorithmIdentifier {
    pub oid: Oid,
    pub parameters: Option<Vec<u8>>,
}

impl View for AlgorithmIdentifier {
    type V = (Seq<u8>, Option<Seq<u8>>);

    open spec fn view(&self) -> (Seq<u8>, Option<Seq<u8>>) {
        (self.oid@, opt_bytes_view(self.parameters))
    }
}

/// Whether two byte strings are equal.
pub fn bytes_equal(a: &[u8], b: &[u8]) -> (res: bool)
    ensures
        res == (a@ == b@),
{
    if a.len() != b.len() {
        return false;
    }
    let mut i: usize = 0;
    while i < a.len()
        invariant
            a@.len() == b@.len(),
            i <= a@.len(),
            forall|j: int| 0 <= j < i ==> a@[j] == b@[j],
        decreases a@.len() - i,
    {
        if a[i] != b[i] {
            return false;
        }
        i = i + 1;
    }
    assert(a@ =~= b@);
    true
}

impl AlgorithmIdentifier {
    /// Whether two algorithm identifiers are identical: the same OID and the
    /// same parameters (both absent, or both present with the same encoding).
    pub fn same_as(&self, other: &AlgorithmIdentifier) -> (res: bool)
        ensures
            res == (self@ == other@),
    {
        if !self.oid.same_as(&other.oid) {
            return false;
        }
        match (&self.parameters, &other.parameters) {
            (Some(a), Some(b)) => bytes_equal(a.as_slice(), b.as_slice()),
            (None, None) => true,
            _ => false,
        }
    }
}

/// The fields of `RSASSA-PSS-params` (RFC 4055) that verification reads.
#[derive(Clone, Debug)]
pub struct PssParams {
    /// The OID of `hashAlgorithm`.
    pub hash: Oid,
    /// The OID of `maskGenAlgorithm`.
    pub mask_gen: Oid,
    /// The OID of the hash that parameterises `maskGenAlgorithm`, if any.
    pub mask_gen_hash: Option<Oid>,
    /// `saltLength`.
    pub salt_len: u8,
}

/// The view of an optional OID.
pub open spec fn opt_oid_view(o: Option<Oid>) -> Option<Seq<u8>> {
    match o {
        Some(x) => Some(x@),
        None => None,
    }
}

impl View for PssParams {
    type V = (Seq<u8>, Seq<u8>, Option<Seq<u8>>, u8);

    open spec fn view(&self) -> (Seq<u8>, Seq<u8>, Option<Seq<u8>>, u8) {
        (self.hash@, self.mask_gen@, opt_oid_view(self.mask_gen_hash), self.salt_len)
    }
}

} // verus!
