//! The hash functions and the base64 encoding that checksums are built from.
//!
//! Each hasher is an outside type whose state is described by the bytes fed
//! to it so far; finalizing yields the digest of exactly those bytes.
use vstd::prelude::*;

verus! {

/// The CRC-32 (IEEE) checksum of a byte sequence.
pub uninterp spec fn crc32_of(bytes: Seq<u8>) -> u32;

/// The CRC-32C (Castagnoli) checksum of a byte sequence.
pub uninterp spec fn crc32c_of(bytes: Seq<u8>) -> u32;

/// The SHA-1 digest of a byte sequence.
pub uninterp spec fn sha1_of(bytes: Seq<u8>) -> Seq<u8>;

/// The MD5 digest of a byte sequence.
pub uninterp spec fn md5_of(bytes: Seq<u8>) -> Seq<u8>;

/// The SHA-256 digest of a byte sequence.
pub uninterp spec fn sha256_of(bytes: Seq<u8>) -> Seq<u8>;

/// The standard base64 rendering (with padding) of a byte sequence, as ASCII bytes.
pub uninterp spec fn base64_of(bytes: Seq<u8>) -> Seq<u8>;

/// The bytes fed so far to a CRC-32 hasher.
pub uninterp spec fn crc32_input(h: crc32fast::Hasher) -> Seq<u8>;

/// The bytes fed so far to a CRC-32C hasher.
pub uninterp spec fn crc32c_input(h: crc32c::Crc32cHasher) -> Seq<u8>;

/// The bytes fed so far to a SHA-1 hasher.
pub uninterp spec fn sha1_input(h: Sha1State) -> Seq<u8>;

/// The bytes fed so far to an MD5 hasher.
pub uninterp spec fn md5_input(h: Md5State) -> Seq<u8>;

/// The bytes fed so far to a SHA-256 hasher.
pub uninterp spec fn sha256_input(h: Sha256State) -> Seq<u8>;

/// Whether `b` is in the standard base64 alphabet or is the padding `=`.
pub open spec fn is_base64_byte(b: u8) -> bool {
    (65 <= b && b <= 90) || (97 <= b && b <= 122) || (48 <= b && b <= 57) || b == 43 || b == 47
        || b == 61
}

/// Length of the padded standard base64 rendering of `n` bytes.
pub open spec fn base64_len(n: nat) -> nat {
    4 * ((n + 2) / 3)
}

#[verifier::external_type_specification]
#[verifier::external_body]
pub struct ExCrc32Hasher(crc32fast::Hasher);

#[verifier::external_type_specification]
#[verifier::external_body]
pub struct ExCrc32cHasher(crc32c::Crc32cHasher);

/// A SHA-1 hasher. The outside type is an alias of a generic wrapper that
/// cannot be declared on its own, so it is held here out of Verus's sight.
#[verifier::external_body]
pub struct Sha1State {
    h: sha1::Sha1,
}

/// An MD5 hasher, held as `Sha1State` holds its own.
#[verifier::external_body]
pub struct Md5State {
    h: md5::Md5,
}

/// A SHA-256 hasher, held as `Sha1State` holds its own.
#[verifier::external_body]
pub struct Sha256State {
    h: sha2::Sha256,
}

/// Relies on crc32fast::Hasher::new: a fresh hasher has processed no bytes.
#[verifier::external_body]
pub(crate) fn crc32_new() -> (r: crc32fast::Hasher)
    ensures
        crc32_input(r) == Seq::<u8>::empty(),
{
    crc32fast::Hasher::new()
}

/// Relies on crc32fast::Hasher::update: the bytes are appended to the input.
#[verifier::external_body]
pub(crate) fn crc32_update(h: &mut crc32fast::Hasher, data: &[u8])
    ensures
        crc32_input(*final(h)) == crc32_input(*old(h)) + data@,
{
    h.update(data)
}

/// Relies on crc32fast::Hasher::finalize: the CRC-32 of every byte processed.
#[verifier::external_body]
pub(crate) fn crc32_finalize(h: crc32fast::Hasher) -> (r: u32)
    ensures
        r == crc32_of(crc32_input(h)),
{
    h.finalize()
}

/// Relies on crc32c::Crc32cHasher::new: seeded with 0 it has processed no bytes.
#[verifier::external_body]
pub(crate) fn crc32c_new() -> (r: crc32c::Crc32cHasher)
    ensures
        crc32c_input(r) == Seq::<u8>::empty(),
{
    crc32c::Crc32cHasher::new(0)
}

/// Relies on `Hasher::write` of crc32c::Crc32cHasher: the bytes are appended to the input.
#[verifier::external_body]
pub(crate) fn crc32c_update(h: &mut crc32c::Crc32cHasher, data: &[u8])
    ensures
        crc32c_input(*final(h)) == crc32c_input(*old(h)) + data@,
{
    std::hash::Hasher::write(h, data)
}

/// Relies on `Hasher::finish` of crc32c::Crc32cHasher: the CRC-32C of every
/// byte written, widened to 64 bits.
#[verifier::external_body]
pub(crate) fn crc32c_finish(h: &crc32c::Crc32cHasher) -> (r: u64)
    ensures
        r == crc32c_of(crc32c_input(*h)) as u64,
{
    std::hash::Hasher::finish(h)
}

/// Relies on `Digest::new` for sha1::Sha1: a fresh hasher has processed no bytes.
#[verifier::external_body]
pub(crate) fn sha1_new() -> (r: Sha1State)
    ensures
        sha1_input(r) == Seq::<u8>::empty(),
{
    Sha1State { h: <sha1::Sha1 as sha1::Digest>::new() }
}

/// Relies on `Digest::update` for sha1::Sha1: the bytes are appended to the input.
#[verifier::external_body]
pub(crate) fn sha1_update(h: &mut Sha1State, data: &[u8])
    ensures
        sha1_input(*final(h)) == sha1_input(*old(h)) + data@,
{
    sha1::Digest::update(&mut h.h, data)
}

/// Relies on `Digest::finalize` for sha1::Sha1: the 20-byte digest of every
/// byte processed.
#[verifier::external_body]
pub(crate) fn sha1_finalize(h: Sha1State) -> (r: Vec<u8>)
    ensures
        r@ == sha1_of(sha1_input(h)),
        r@.len() == 20,
{
    sha1::Digest::finalize(h.h).to_vec()
}

/// Relies on `Digest::new` for md5::Md5: a fresh hasher has processed no bytes.
#[verifier::external_body]
pub(crate) fn md5_new() -> (r: Md5State)
    ensures
        md5_input(r) == Seq::<u8>::empty(),
{
    Md5State { h: <md5::Md5 as md5::Digest>::new() }
}

/// Relies on `Digest::update` for md5::Md5: the bytes are appended to the input.
#[verifier::external_body]
pub(crate) fn md5_update(h: &mut Md5State, data: &[u8])
    ensures
        md5_input(*final(h)) == md5_input(*old(h)) + data@,
{
    md5::Digest::update(&mut h.h, data)
}

/// Relies on `Digest::finalize` for md5::Md5: the 16-byte digest of every
/// byte processed.
#[verifier::external_body]
pub(crate) fn md5_finalize(h: Md5State) -> (r: Vec<u8>)
    ensures
        r@ == md5_of(md5_input(h)),
        r@.len() == 16,
{
    md5::Digest::finalize(h.h).to_vec()
}

/// Relies on `Digest::new` for sha2::Sha256: a fresh hasher has processed no bytes.
#[verifier::external_body]
pub(crate) fn sha256_new() -> (r: Sha256State)
    ensures
        sha256_input(r) == Seq::<u8>::empty(),
{
    Sha256State { h: <sha2::Sha256 as sha2::Digest>::new() }
}

/// Relies on `Digest::update` for sha2::Sha256: the bytes are appended to the input.
#[verifier::external_body]
pub(crate) fn sha256_update(h: &mut Sha256State, data: &[u8])
    ensures
        sha256_input(*final(h)) == sha256_input(*old(h)) + data@,
{
    sha2::Digest::update(&mut h.h, data)
}

/// Relies on `Digest::finalize` for sha2::Sha256: the 32-byte digest of every
/// byte processed.
#[verifier::external_body]
pub(crate) fn sha256_finalize(h: Sha256State) -> (r: Vec<u8>)
    ensures
        r@ == sha256_of(sha256_input(h)),
        r@.len() == 32,
{
    sha2::Digest::finalize(h.h).to_vec()
}

/// The characters of an ASCII byte string.
pub open spec fn ascii_chars(b: Seq<u8>) -> Seq<char> {
    b.map_values(|x: u8| x as char)
}

/// Relies on std's String::from_utf8: bytes that are valid UTF-8, as ASCII
/// bytes are, become a string of the same characters.
#[verifier::external_body]
pub(crate) fn ascii_string(b: Vec<u8>) -> (r: String)
    requires
        forall|i: int| 0 <= i < b@.len() ==> b@[i] < 128,
    ensures
        r@ == ascii_chars(b@),
{
    String::from_utf8(b).unwrap_or_default()
}

/// Relies on aws_smithy_types::base64::encode: the standard, padded base64
/// rendering, four characters of the standard alphabet (or `=`) for every
/// started group of three bytes.
#[verifier::external_body]
pub(crate) fn base64_encode(data: &[u8]) -> (r: Vec<u8>)
    ensures
        r@ == base64_of(data@),
        r@.len() == base64_len(data@.len()),
        forall|i: int| 0 <= i < r@.len() ==> is_base64_byte(#[trigger] r@[i]),
{
    aws_smithy_types::base64::encode(data).into_bytes()
}

} // verus!
