//! Digests: MD5 (sent and checked with file transfers) and SHA-256 (kept
//! in the sync ledger), of a whole byte string or streamed chunk by chunk,
//! and their lowercase hex text.
use vstd::prelude::*;

use md5::Digest;

use crate::text::{hex_bytes, hex_encode};

verus! {

/// MD5 of a byte string (the value `md5::Md5::digest` returns).
pub uninterp spec fn md5_digest(data: Seq<u8>) -> Seq<u8>;

/// SHA-256 of a byte string (the value `sha2::Sha256::digest` returns).
pub uninterp spec fn sha256_digest(data: Seq<u8>) -> Seq<u8>;

/// `md5::Md5::digest`: the MD5 digest of `data`, 16 bytes long. What the
/// digest is beyond its length is not stated here.
#[verifier::external_body]
fn md5(data: &[u8]) -> (r: Vec<u8>)
    ensures
        r@ == md5_digest(data@),
        r@.len() == 16,
{
    md5::Md5::digest(data).to_vec()
}

/// `sha2::Sha256::digest`: the SHA-256 digest of `data`, 32 bytes long.
/// What the digest is beyond its length is not stated here.
#[verifier::external_body]
pub(crate) fn sha256(data: &[u8]) -> (r: Vec<u8>)
    ensures
        r@ == sha256_digest(data@),
        r@.len() == 32,
{
    sha2::Sha256::digest(data).to_vec()
}

/// Lowercase hex MD5 of `data`.
pub fn md5_hex(data: &[u8]) -> (r: String)
    ensures
        r@ == hex_bytes(md5_digest(data@)),
{
    hex_encode(md5(data).as_slice())
}

/// Lowercase hex SHA-256 of `data`.
pub fn sha256_hex(data: &[u8]) -> (r: String)
    ensures
        r@ == hex_bytes(sha256_digest(data@)),
{
    hex_encode(sha256(data).as_slice())
}

/// A running `md5::Md5`. Verus cannot declare the hasher's generic core
/// type, so it is held here opaquely; `md5_fed` names what was fed to it.
#[verifier::external_body]
pub struct Md5Hasher {
    inner: md5::Md5,
}

/// The bytes fed to an MD5 hasher so far, in order.
pub uninterp spec fn md5_fed(h: Md5Hasher) -> Seq<u8>;

/// `md5::Md5::new`: a hasher that has been fed nothing.
#[verifier::external_body]
fn md5_new() -> (r: Md5Hasher)
    ensures
        md5_fed(r) == Seq::<u8>::empty(),
{
    Md5Hasher { inner: md5::Md5::new() }
}

/// `Digest::update` on an MD5 hasher: `data` is appended to what it was fed.
#[verifier::external_body]
fn md5_update(h: &mut Md5Hasher, data: &[u8])
    ensures
        md5_fed(*final(h)) == md5_fed(*old(h)) + data@,
{
    h.inner.update(data);
}

/// `Digest::finalize` on an MD5 hasher: the MD5 of all it was fed, 16
/// bytes, as `md5::Md5::digest` of those bytes would give.
#[verifier::external_body]
fn md5_finalize(h: Md5Hasher) -> (r: Vec<u8>)
    ensures
        r@ == md5_digest(md5_fed(h)),
        r@.len() == 16,
{
    h.inner.finalize().to_vec()
}

/// A running `sha2::Sha256`, held opaquely for the same reason;
/// `sha256_fed` names what was fed to it.
#[verifier::external_body]
pub struct Sha256Hasher {
    inner: sha2::Sha256,
}

/// The bytes fed to a SHA-256 hasher so far, in order.
pub uninterp spec fn sha256_fed(h: Sha256Hasher) -> Seq<u8>;

/// `sha2::Sha256::new`: a hasher that has been fed nothing.
#[verifier::external_body]
fn sha256_new() -> (r: Sha256Hasher)
    ensures
        sha256_fed(r) == Seq::<u8>::empty(),
{
    Sha256Hasher { inner: sha2::Sha256::new() }
}

/// `Digest::update` on a SHA-256 hasher: `data` is appended to what it
/// was fed.
#[verifier::external_body]
fn sha256_update(h: &mut Sha256Hasher, data: &[u8])
    ensures
        sha256_fed(*final(h)) == sha256_fed(*old(h)) + data@,
{
    h.inner.update(data);
}

/// `Digest::finalize` on a SHA-256 hasher: the SHA-256 of all it was fed,
/// 32 bytes.
#[verifier::external_body]
fn sha256_finalize(h: Sha256Hasher) -> (r: Vec<u8>)
    ensures
        r@ == sha256_digest(sha256_fed(h)),
        r@.len() == 32,
{
    h.inner.finalize().to_vec()
}

/// MD5 of a byte stream fed in chunks.
pub struct Md5Stream {
    hasher: Md5Hasher,
}

impl Md5Stream {
    /// The bytes fed so far, in order.
    pub closed spec fn fed(&self) -> Seq<u8> {
        md5_fed(self.hasher)
    }

    /// A stream that has been fed nothing.
    pub fn new() -> (r: Self)
        ensures
            r.fed() == Seq::<u8>::empty(),
    {
        Md5Stream { hasher: md5_new() }
    }

    /// Feed the next chunk.
    pub fn update(&mut self, data: &[u8])
        ensures
            final(self).fed() == old(self).fed() + data@,
    {
        md5_update(&mut self.hasher, data);
    }

    /// Lowercase hex MD5 of everything fed.
    pub fn finish_hex(self) -> (r: String)
        ensures
            r@ == hex_bytes(md5_digest(self.fed())),
    {
        hex_encode(md5_finalize(self.hasher).as_slice())
    }
}

/// SHA-256 of a byte stream fed in chunks.
pub struct Sha256Stream {
    hasher: Sha256Hasher,
}

impl Sha256Stream {
    /// The bytes fed so far, in order.
    pub closed spec fn fed(&self) -> Seq<u8> {
        sha256_fed(self.hasher)
    }

    /// A stream that has been fed nothing.
    pub fn new() -> (r: Self)
        ensures
            r.fed() == Seq::<u8>::empty(),
    {
        Sha256Stream { hasher: sha256_new() }
    }

    /// Feed the next chunk.
    pub fn update(&mut self, data: &[u8])
        ensures
            final(self).fed() == old(self).fed() + data@,
    {
        sha256_update(&mut self.hasher, data);
    }

    /// Lowercase hex SHA-256 of everything fed.
    pub fn finish_hex(self) -> (r: String)
        ensures
            r@ == hex_bytes(sha256_digest(self.fed())),
    {
        hex_encode(sha256_finalize(self.hasher).as_slice())
    }
}

} // verus!
