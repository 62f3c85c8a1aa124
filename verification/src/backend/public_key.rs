//! Decoding of X.509 SubjectPublicKeyInfo structures (`spki` crate).

use vstd::prelude::*;
use der::{Decode, Tagged};
use crate::crypto::oid::Oid;

verus! {

/// The fields of a SubjectPublicKeyInfo: the algorithm OID, the algorithm
/// parameters as (tag octet, value bytes) where present, and the bytes of the
/// subject public key BIT STRING.
pub struct SpkiFields {
    pub algorithm: Oid,
    pub parameters: Option<(u8, Vec<u8>)>,
    pub subject_public_key: Vec<u8>,
}

/// The view of optional (tag, value) parameters.
pub open spec fn opt_param_view(p: Option<(u8, Vec<u8>)>) -> Option<(u8, Seq<u8>)> {
    match p {
        Some((t, v)) => Some((t, v@)),
        None => None,
    }
}

impl View for SpkiFields {
    type V = (Seq<u8>, Option<(u8, Seq<u8>)>, Seq<u8>);

    open spec fn view(&self) -> (Seq<u8>, Option<(u8, Seq<u8>)>, Seq<u8>) {
        (self.algorithm@, opt_param_view(self.parameters), self.subject_public_key@)
    }
}

/// The fields of the SubjectPublicKeyInfo that `der` encodes, or `None`
/// where it does not decode.
pub uninterp spec fn spki_fields(der: Seq<u8>) -> Option<(Seq<u8>, Option<(u8, Seq<u8>)>, Seq<u8>)>;

/// `spki::SubjectPublicKeyInfoRef::from_der`: decodes a DER SubjectPublicKeyInfo
/// and hands out its fields as plain bytes; fails where `der` is not one.
#[verifier::external_body]
pub(crate) fn decode_spki(der: &[u8]) -> (res: Result<SpkiFields, der::Error>)
    ensures
        res is Ok <==> spki_fields(der@) is Some,
        res matches Ok(f) ==> Some(f@) == spki_fields(der@),
{
    spki::SubjectPublicKeyInfoRef::from_der(der).map(|s| SpkiFields {
        algorithm: Oid::from_content_bytes(s.algorithm.oid.as_bytes().to_vec()),
        parameters: s.algorithm.parameters.map(|p| (p.tag().octet(), p.value().to_vec())),
        subject_public_key: s.subject_public_key.raw_bytes().to_vec(),
    })
}

} // verus!
