//! Message digests, computed by the RustCrypto hash crates.

use vstd::prelude::*;
use digest::Digest;

verus! {

/// The MD5 digest of `data`.
pub uninterp spec fn md5_digest(data: Seq<u8>) -> Seq<u8>;

/// The SHA-1 digest of `data`.
pub uninterp spec fn sha1_digest(data: Seq<u8>) -> Seq<u8>;

/// The SHA-224 digest of `data`.
pub uninterp spec fn sha224_digest(data: Seq<u8>) -> Seq<u8>;

/// The SHA-256 digest of `data`.
pub uninterp spec fn sha256_digest(data: Seq<u8>) -> Seq<u8>;

/// The SHA-384 digest of `data`.
pub uninterp spec fn sha384_digest(data: Seq<u8>) -> Seq<u8>;

/// The SHA-512 digest of `data`.
pub uninterp spec fn sha512_digest(data: Seq<u8>) -> Seq<u8>;

/// `md5::Md5::digest` (md-5): the 16-byte MD5 digest of `data`.
#[verifier::external_body]
pub(crate) fn md5(data: &[u8]) -> (res: Vec<u8>)
    ensures
        res@ == md5_digest(data@),
        res@.len() == 16,
{
    md5::Md5::digest(data).to_vec()
}

/// `sha1::Sha1::digest`: the 20-byte SHA-1 digest of `data`.
#[verifier::external_body]
pub(crate) fn sha1(data: &[u8]) -> (res: Vec<u8>)
    ensures
        res@ == sha1_digest(data@),
        res@.len() == 20,
{
    sha1::Sha1::digest(data).to_vec()
}

/// `sha2::Sha224::digest`: the 28-byte SHA-224 digest of `data`.
#[verifier::external_body]
pub(crate) fn sha224(data: &[u8]) -> (res: Vec<u8>)
    ensures
        res@ == sha224_digest(data@),
        res@.len() == 28,
{
    sha2::Sha224::digest(data).to_vec()
}

/// `sha2::Sha256::digest`: the 32-byte SHA-256 digest of `data`.
#[verifier::external_body]
pub(crate) fn sha256(data: &[u8]) -> (res: Vec<u8>)
    ensures
        res@ == sha256_digest(data@),
        res@.len() == 32,
{
    sha2::Sha256::digest(data).to_vec()
}

/// `sha2::Sha384::digest`: the 48-byte SHA-384 digest of `data`.
#[verifier::external_body]
pub(crate) fn sha384(data: &[u8]) -> (res: Vec<u8>)
    ensures
        res@ == sha384_digest(data@),
        res@.len() == 48,
{
    sha2::Sha384::digest(data).to_vec()
}

/// `sha2::Sha512::digest`: the 64-byte SHA-512 digest of `data`.
#[verifier::external_body]
pub(crate) fn sha512(data: &[u8]) -> (res: Vec<u8>)
    ensures
        res@ == sha512_digest(data@),
        res@.len() == 64,
{
    sha2::Sha512::digest(data).to_vec()
}

} // verus!
