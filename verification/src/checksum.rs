//! Incremental checksum verification of a downloaded file.

use vstd::prelude::*;

use crate::download::{compare_digests, is_verdict_on, DownloadError};

verus! {

/// An MD5 hasher, `md5::Md5`, kept out of the verifier's sight: what
/// is known of it is what the functions below say of `md5_input`.
#[verifier::external_body]
pub struct Md5Hasher {
    inner: md5::Md5,
}

/// The bytes that an MD5 hasher has absorbed so far, in order.
pub uninterp spec fn md5_input(hasher: Md5Hasher) -> Seq<u8>;

/// The MD5 digest of `data`, written as lower-case hexadecimal digits.
pub uninterp spec fn md5_hex(data: Seq<u8>) -> Seq<char>;

/// Calls `Digest::new` of `md5::Md5`: a hasher that has absorbed nothing.
#[verifier::external_body]
fn md5_new() -> (hasher: Md5Hasher)
    ensures
        md5_input(hasher) == Seq::<u8>::empty(),
{
    Md5Hasher { inner: <md5::Md5 as md5::Digest>::new() }
}

/// Calls `Digest::update` of `md5::Md5`: the hasher absorbs `data` after what
/// it has absorbed before.
#[verifier::external_body]
fn md5_update(hasher: &mut Md5Hasher, data: &[u8])
    ensures
        md5_input(*final(hasher)) == md5_input(*old(hasher)) + data@,
{
    md5::Digest::update(&mut hasher.inner, data)
}

/// Calls `Digest::finalize` of `md5::Md5` and formats the digest with `{:x}`:
/// the digest of all that the hasher has absorbed, named `md5_hex`.
#[verifier::external_body]
fn md5_finalize(hasher: Md5Hasher) -> (digest: String)
    ensures
        digest@ == md5_hex(md5_input(hasher)),
{
    format!("{:x}", md5::Digest::finalize(hasher.inner))
}

/// A SHA-1 hasher, `sha1::Sha1`, kept out of the verifier's sight: what
/// is known of it is what the functions below say of `sha1_input`.
#[verifier::external_body]
pub struct Sha1Hasher {
    inner: sha1::Sha1,
}

/// The bytes that a SHA-1 hasher has absorbed so far, in order.
pub uninterp spec fn sha1_input(hasher: Sha1Hasher) -> Seq<u8>;

/// The SHA-1 digest of `data`, written as lower-case hexadecimal digits.
pub uninterp spec fn sha1_hex(data: Seq<u8>) -> Seq<char>;

/// Calls `Digest::new` of `sha1::Sha1`: a hasher that has absorbed nothing.
#[verifier::external_body]
fn sha1_new() -> (hasher: Sha1Hasher)
    ensures
        sha1_input(hasher) == Seq::<u8>::empty(),
{
    Sha1Hasher { inner: <sha1::Sha1 as sha1::Digest>::new() }
}

/// Calls `Digest::update` of `sha1::Sha1`: the hasher absorbs `data` after what
/// it has absorbed before.
#[verifier::external_body]
fn sha1_update(hasher: &mut Sha1Hasher, data: &[u8])
    ensures
        sha1_input(*final(hasher)) == sha1_input(*old(hasher)) + data@,
{
    sha1::Digest::update(&mut hasher.inner, data)
}

/// Calls `Digest::finalize` of `sha1::Sha1` and formats the digest with `{:x}`:
/// the digest of all that the hasher has absorbed, named `sha1_hex`.
#[verifier::external_body]
fn sha1_finalize(hasher: Sha1Hasher) -> (digest: String)
    ensures
        digest@ == sha1_hex(sha1_input(hasher)),
{
    format!("{:x}", sha1::Digest::finalize(hasher.inner))
}

/// A SHA-256 hasher, `sha2::Sha256`, kept out of the verifier's sight: what
/// is known of it is what the functions below say of `sha256_input`.
#[verifier::external_body]
pub struct Sha256Hasher {
    inner: sha2::Sha256,
}

/// The bytes that a SHA-256 hasher has absorbed so far, in order.
pub uninterp spec fn sha256_input(hasher: Sha256Hasher) -> Seq<u8>;

/// The SHA-256 digest of `data`, written as lower-case hexadecimal digits.
pub uninterp spec fn sha256_hex(data: Seq<u8>) -> Seq<char>;

/// Calls `Digest::new` of `sha2::Sha256`: a hasher that has absorbed nothing.
#[verifier::external_body]
fn sha256_new() -> (hasher: Sha256Hasher)
    ensures
        sha256_input(hasher) == Seq::<u8>::empty(),
{
    Sha256Hasher { inner: <sha2::Sha256 as sha2::Digest>::new() }
}

/// Calls `Digest::update` of `sha2::Sha256`: the hasher absorbs `data` after what
/// it has absorbed before.
#[verifier::external_body]
fn sha256_update(hasher: &mut Sha256Hasher, data: &[u8])
    ensures
        sha256_input(*final(hasher)) == sha256_input(*old(hasher)) + data@,
{
    sha2::Digest::update(&mut hasher.inner, data)
}

/// Calls `Digest::finalize` of `sha2::Sha256` and formats the digest with `{:x}`:
/// the digest of all that the hasher has absorbed, named `sha256_hex`.
#[verifier::external_body]
fn sha256_finalize(hasher: Sha256Hasher) -> (digest: String)
    ensures
        digest@ == sha256_hex(sha256_input(hasher)),
{
    format!("{:x}", sha2::Digest::finalize(hasher.inner))
}

/// A SHA-512 hasher, `sha2::Sha512`, kept out of the verifier's sight: what
/// is known of it is what the functions below say of `sha512_input`.
#[verifier::external_body]
pub struct Sha512Hasher {
    inner: sha2::Sha512,
}

/// The bytes that a SHA-512 hasher has absorbed so far, in order.
pub uninterp spec fn sha512_input(hasher: Sha512Hasher) -> Seq<u8>;

/// The SHA-512 digest of `data`, written as lower-case hexadecimal digits.
pub uninterp spec fn sha512_hex(data: Seq<u8>) -> Seq<char>;

/// Calls `Digest::new` of `sha2::Sha512`: a hasher that has absorbed nothing.
#[verifier::external_body]
fn sha512_new() -> (hasher: Sha512Hasher)
    ensures
        sha512_input(hasher) == Seq::<u8>::empty(),
{
    Sha512Hasher { inner: <sha2::Sha512 as sha2::Digest>::new() }
}

/// Calls `Digest::update` of `sha2::Sha512`: the hasher absorbs `data` after what
/// it has absorbed before.
#[verifier::external_body]
fn sha512_update(hasher: &mut Sha512Hasher, data: &[u8])
    ensures
        sha512_input(*final(hasher)) == sha512_input(*old(hasher)) + data@,
{
    sha2::Digest::update(&mut hasher.inner, data)
}

/// Calls `Digest::finalize` of `sha2::Sha512` and formats the digest with `{:x}`:
/// the digest of all that the hasher has absorbed, named `sha512_hex`.
#[verifier::external_body]
fn sha512_finalize(hasher: Sha512Hasher) -> (digest: String)
    ensures
        digest@ == sha512_hex(sha512_input(hasher)),
{
    format!("{:x}", sha2::Digest::finalize(hasher.inner))
}

/// The digest algorithms that a checksum can be verified with.
#[derive(Clone, Copy, Debug, PartialEq, Eq, Structural)]
pub enum Algorithm {
    Md5,
    Sha1,
    Sha256,
    Sha512,
}

/// The algorithm that an expected digest of `len` bytes calls for: 32
/// hexadecimal digits are an MD5 digest, 40 SHA-1, 64 SHA-256, 128 SHA-512.
/// Any other length calls for none.
pub open spec fn algorithm_for(len: nat) -> Option<Algorithm> {
    if len == 32 {
        Some(Algorithm::Md5)
    } else if len == 40 {
        Some(Algorithm::Sha1)
    } else if len == 64 {
        Some(Algorithm::Sha256)
    } else if len == 128 {
        Some(Algorithm::Sha512)
    } else {
        None
    }
}

/// The digest of `data` under `algorithm`, in lower-case hexadecimal.
pub open spec fn digest_hex(algorithm: Algorithm, data: Seq<u8>) -> Seq<char> {
    match algorithm {
        Algorithm::Md5 => md5_hex(data),
        Algorithm::Sha1 => sha1_hex(data),
        Algorithm::Sha256 => sha256_hex(data),
        Algorithm::Sha512 => sha512_hex(data),
    }
}

/// A running hash, one case per algorithm.
pub enum ChecksumAlgorithm {
    Md5(Md5Hasher),
    Sha1(Sha1Hasher),
    Sha256(Sha256Hasher),
    Sha512(Sha512Hasher),
}

impl ChecksumAlgorithm {
    /// Which algorithm this running hash computes.
    pub open spec fn algorithm(&self) -> Algorithm {
        match self {
            ChecksumAlgorithm::Md5(_) => Algorithm::Md5,
            ChecksumAlgorithm::Sha1(_) => Algorithm::Sha1,
            ChecksumAlgorithm::Sha256(_) => Algorithm::Sha256,
            ChecksumAlgorithm::Sha512(_) => Algorithm::Sha512,
        }
    }

    /// The bytes absorbed so far.
    pub open spec fn input(&self) -> Seq<u8> {
        match self {
            ChecksumAlgorithm::Md5(h) => md5_input(*h),
            ChecksumAlgorithm::Sha1(h) => sha1_input(*h),
            ChecksumAlgorithm::Sha256(h) => sha256_input(*h),
            ChecksumAlgorithm::Sha512(h) => sha512_input(*h),
        }
    }
}

/// Validates a stream of chunks against an expected digest.
pub struct ChecksumVerification {
    expected_checksum: String,
    algorithm: ChecksumAlgorithm,
}

impl ChecksumVerification {
    /// The digest that the stream is expected to have.
    pub closed spec fn expected(&self) -> Seq<char> {
        self.expected_checksum@
    }

    /// The algorithm in use.
    pub closed spec fn algorithm(&self) -> Algorithm {
        self.algorithm.algorithm()
    }

    /// All the bytes written so far, in order.
    pub closed spec fn written(&self) -> Seq<u8> {
        self.algorithm.input()
    }

    /// A verification against `expected_checksum`, with the algorithm chosen
    /// by its length in bytes; none if no algorithm has digests of that
    /// length.
    pub fn new(expected_checksum: String) -> (verification: Option<Self>)
        ensures
            match algorithm_for(expected_checksum@.len()) {
                Some(algorithm) => verification is Some && verification.unwrap().algorithm()
                    == algorithm && verification.unwrap().expected() == expected_checksum@
                    && verification.unwrap().written() == Seq::<u8>::empty(),
                None => verification is None,
            },
    {
        let len: usize = expected_checksum.as_str().unicode_len();
        let algorithm = if len == 32 {
            ChecksumAlgorithm::Md5(md5_new())
        } else if len == 40 {
            ChecksumAlgorithm::Sha1(sha1_new())
        } else if len == 64 {
            ChecksumAlgorithm::Sha256(sha256_new())
        } else if len == 128 {
            ChecksumAlgorithm::Sha512(sha512_new())
        } else {
            return None;
        };
        Some(ChecksumVerification { expected_checksum, algorithm })
    }

    /// Feeds one chunk of the stream.
    pub fn write_chunk(&mut self, data: &[u8])
        ensures
            final(self).written() == old(self).written() + data@,
            final(self).algorithm() == old(self).algorithm(),
            final(self).expected() == old(self).expected(),
    {
        match &mut self.algorithm {
            ChecksumAlgorithm::Md5(a) => md5_update(a, data),
            ChecksumAlgorithm::Sha1(a) => sha1_update(a, data),
            ChecksumAlgorithm::Sha256(a) => sha256_update(a, data),
            ChecksumAlgorithm::Sha512(a) => sha512_update(a, data),
        }
    }

    /// The verdict at the end of the stream: the digest of all that was
    /// written is compared with the expected one, character by character.
    pub fn validate(self) -> (verdict: Result<(), DownloadError>)
        ensures
            is_verdict_on(
                verdict,
                digest_hex(self.algorithm(), self.written()),
                self.expected(),
            ),
    {
        let ChecksumVerification { expected_checksum, algorithm } = self;
        let actual_checksum = match algorithm {
            ChecksumAlgorithm::Md5(a) => md5_finalize(a),
            ChecksumAlgorithm::Sha1(a) => sha1_finalize(a),
            ChecksumAlgorithm::Sha256(a) => sha256_finalize(a),
            ChecksumAlgorithm::Sha512(a) => sha512_finalize(a),
        };
        compare_digests(actual_checksum, expected_checksum)
    }
}

/// The verification that a source's checksum calls for: none where the
/// source names no checksum, or one of a length that no algorithm has.
pub fn verification_for(checksum: Option<String>) -> (verification: Option<ChecksumVerification>)
    ensures
        match checksum {
            Some(expected) => match algorithm_for(expected@.len()) {
                Some(algorithm) => verification is Some && verification.unwrap().algorithm()
                    == algorithm && verification.unwrap().expected() == expected@
                    && verification.unwrap().written() == Seq::<u8>::empty(),
                None => verification is None,
            },
            None => verification is None,
        },
{
    match checksum {
        Some(expected) => ChecksumVerification::new(expected),
        None => None,
    }
}

/// Feeds one chunk of a transfer to its verification, if it has one. Returns
/// the number of bytes to add to the unit's counter.
pub fn feed_chunk(verification: &mut Option<ChecksumVerification>, data: &[u8]) -> (received: u64)
    ensures
        received == data@.len(),
        match (*old(verification), *final(verification)) {
            (Some(before), Some(after)) => after.written() == before.written() + data@
                && after.algorithm() == before.algorithm() && after.expected()
                == before.expected(),
            (None, None) => true,
            _ => false,
        },
{
    match verification {
        Some(v) => v.write_chunk(data),
        None => {},
    }
    data.len() as u64
}

/// The result of a transfer whose stream has ended: success where nothing is
/// verified, else the verdict of the verification.
pub fn finish_transfer(verification: Option<ChecksumVerification>) -> (result: Result<
    (),
    DownloadError,
>)
    ensures
        match verification {
            Some(v) => is_verdict_on(result, digest_hex(v.algorithm(), v.written()), v.expected()),
            None => result is Ok,
        },
{
    match verification {
        Some(v) => v.validate(),
        None => Ok(()),
    }
}

} // verus!
