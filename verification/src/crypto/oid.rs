use vstd::prelude::*;

verus! {

/// An ASN.1 OBJECT IDENTIFIER, held as the content octets of its BER/DER
/// encoding (the bytes after the tag and length).
#[derive(Clone, Debug)]
pub struct Oid {
    bytes: Vec<u8>,
}

impl View for Oid {
    type V = Seq<u8>;

    closed spec fn view(&self) -> Seq<u8> {
        self.bytes@
    }
}

impl Oid {
    /// Builds an OID from the content octets of its encoding.
    pub fn from_content_bytes(bytes: Vec<u8>) -> (res: Oid)
        ensures
            res@ == bytes@,
    {
        Oid { bytes }
    }

    /// The content octets of the encoding.
    pub fn as_bytes(&self) -> (res: &[u8])
        ensures
            res@ == self@,
    {
        self.bytes.as_slice()
    }

    /// Whether two OIDs are the same identifier.
    pub fn same_as(&self, other: &Oid) -> (res: bool)
        ensures
            res == (self@ == other@),
    {
        self.is(other.as_bytes())
    }

    /// Whether this OID's content octets are `expected`.
    pub fn is(&self, expected: &[u8]) -> (res: bool)
        ensures
            res == (self@ == expected@),
    {
        crate::crypto::algorithm::bytes_equal(self.bytes.as_slice(), expected)
    }
}

} // verus!
