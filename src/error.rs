//! Errors raised while parsing configuration values and while checksumming bodies.
use vstd::prelude::*;
use crate::digests::{ascii_chars, ascii_string};

verus! {

/// A checksum algorithm name that is not known.
#[derive(Debug)]
pub struct UnknownChecksumAlgorithmError {
    checksum_algorithm: String,
}

impl UnknownChecksumAlgorithmError {
    /// The name as it was given.
    pub closed spec fn name(&self) -> Seq<char> {
        self.checksum_algorithm@
    }

    pub fn new(checksum_algorithm: &str) -> (r: Self)
        ensures
            r.name() == checksum_algorithm@,
    {
        UnknownChecksumAlgorithmError { checksum_algorithm: checksum_algorithm.to_owned() }
    }

    /// The checksum algorithm that is unknown.
    pub fn checksum_algorithm(&self) -> (r: &str)
        ensures
            r@ == self.name(),
    {
        self.checksum_algorithm.as_str()
    }
}

/// An unknown setting for `request_checksum_calculation`.
#[derive(Debug)]
pub struct UnknownRequestChecksumCalculationError {
    request_checksum_calculation: String,
}

impl UnknownRequestChecksumCalculationError {
    /// The value as it was given.
    pub closed spec fn value(&self) -> Seq<char> {
        self.request_checksum_calculation@
    }

    pub fn new(request_checksum_calculation: &str) -> (r: Self)
        ensures
            r.value() == request_checksum_calculation@,
    {
        UnknownRequestChecksumCalculationError {
            request_checksum_calculation: request_checksum_calculation.to_owned(),
        }
    }

    /// The unknown value.
    pub fn request_checksum_calculation(&self) -> (r: &str)
        ensures
            r@ == self.value(),
    {
        self.request_checksum_calculation.as_str()
    }
}

/// An unknown setting for `response_checksum_validation`.
#[derive(Debug)]
pub struct UnknownResponseChecksumValidationError {
    response_checksum_validation: String,
}

impl UnknownResponseChecksumValidationError {
    /// The value as it was given.
    pub closed spec fn value(&self) -> Seq<char> {
        self.response_checksum_validation@
    }

    pub fn new(response_checksum_validation: &str) -> (r: Self)
        ensures
            r.value() == response_checksum_validation@,
    {
        UnknownResponseChecksumValidationError {
            response_checksum_validation: response_checksum_validation.to_owned(),
        }
    }

    /// The unknown value.
    pub fn response_checksum_validation(&self) -> (r: &str)
        ensures
            r@ == self.value(),
    {
        self.response_checksum_validation.as_str()
    }
}

/// The lower-case hexadecimal digit for `d < 16`.
pub open spec fn lower_hex_digit(d: nat) -> u8 {
    if d < 10 {
        (48 + d) as u8
    } else {
        (87 + d) as u8
    }
}

/// Each byte as two lower-case hexadecimal digits.
pub open spec fn lower_hex(b: Seq<u8>) -> Seq<u8>
    decreases b.len(),
{
    if b.len() == 0 {
        Seq::empty()
    } else {
        lower_hex(b.drop_last()) + seq![
            lower_hex_digit(b.last() as nat / 16),
            lower_hex_digit(b.last() as nat % 16),
        ]
    }
}

/// `body checksum mismatch. expected body checksum to be ` in ASCII.
pub open spec fn mismatch_prefix() -> Seq<u8> {
    seq![98u8, 111, 100, 121, 32, 99, 104, 101, 99, 107, 115, 117, 109, 32, 109, 105, 115, 109, 97, 116, 99, 104, 46, 32, 101, 120, 112, 101, 99, 116, 101, 100, 32, 98, 111, 100, 121, 32, 99, 104, 101, 99, 107, 115, 117, 109, 32, 116, 111, 32, 98, 101, 32]
}

/// ` but it was ` in ASCII.
pub open spec fn mismatch_middle() -> Seq<u8> {
    seq![32u8, 98, 117, 116, 32, 105, 116, 32, 119, 97, 115, 32]
}

/// The message of a checksum mismatch.
pub open spec fn mismatch_message(expected: Seq<u8>, actual: Seq<u8>) -> Seq<u8> {
    mismatch_prefix() + lower_hex(expected) + mismatch_middle() + lower_hex(actual)
}

fn push_ascii(out: &mut Vec<u8>, s: &[u8])
    requires
        forall|i: int| 0 <= i < old(out)@.len() ==> old(out)@[i] < 128,
        forall|i: int| 0 <= i < s@.len() ==> s@[i] < 128,
    ensures
        final(out)@ == old(out)@ + s@,
        forall|i: int| 0 <= i < final(out)@.len() ==> final(out)@[i] < 128,
{
    let mut i: usize = 0;
    while i < s.len()
        invariant
            0 <= i <= s@.len(),
            out@ == old(out)@ + s@.take(i as int),
            forall|j: int| 0 <= j < s@.len() ==> s@[j] < 128,
            forall|j: int| 0 <= j < out@.len() ==> out@[j] < 128,
        decreases s@.len() - i,
    {
        out.push(s[i]);
        assert(s@.take(i + 1) =~= s@.take(i as int).push(s@[i as int]));
        i = i + 1;
    }
    assert(s@.take(s@.len() as int) =~= s@);
}

fn push_lower_hex(out: &mut Vec<u8>, b: &[u8])
    requires
        forall|i: int| 0 <= i < old(out)@.len() ==> old(out)@[i] < 128,
    ensures
        final(out)@ == old(out)@ + lower_hex(b@),
        forall|i: int| 0 <= i < final(out)@.len() ==> final(out)@[i] < 128,
{
    let mut i: usize = 0;
    while i < b.len()
        invariant
            0 <= i <= b@.len(),
            out@ == old(out)@ + lower_hex(b@.take(i as int)),
            forall|j: int| 0 <= j < out@.len() ==> out@[j] < 128,
        decreases b@.len() - i,
    {
        let x = b[i];
        let hi: u8 = if x / 16 < 10 { 48 + x / 16 } else { 87 + x / 16 };
        let lo: u8 = if x % 16 < 10 { 48 + x % 16 } else { 87 + x % 16 };
        out.push(hi);
        out.push(lo);
        assert(b@.take(i + 1).drop_last() =~= b@.take(i as int));
        assert(out@ =~= old(out)@ + lower_hex(b@.take(i + 1)));
        i = i + 1;
    }
    assert(b@.take(b@.len() as int) =~= b@);
}

/// Failures of a checksum-validating body.
#[derive(Debug, PartialEq, Eq)]
pub enum Error {
    /// The body's digest differs from the expected one; the whole body is corrupt.
    ChecksumMismatch { expected: Vec<u8>, actual: Vec<u8> },
}

impl Error {
    /// `body checksum mismatch. expected body checksum to be <hex> but it was <hex>`,
    /// with each digest in lower-case hexadecimal.
    pub fn message(&self) -> (r: String)
        ensures
            match self {
                Error::ChecksumMismatch { expected, actual } => r@ == ascii_chars(
                    mismatch_message(expected@, actual@),
                ),
            },
    {
        match self {
            Error::ChecksumMismatch { expected, actual } => {
                let mut out: Vec<u8> = Vec::new();
                let pre = vec![98u8, 111, 100, 121, 32, 99, 104, 101, 99, 107, 115, 117, 109, 32, 109, 105, 115, 109, 97, 116, 99, 104, 46, 32, 101, 120, 112, 101, 99, 116, 101, 100, 32, 98, 111, 100, 121, 32, 99, 104, 101, 99, 107, 115, 117, 109, 32, 116, 111, 32, 98, 101, 32];
                assert(pre@ =~= mismatch_prefix());
                assert(forall|i: int| 0 <= i < pre@.len() ==> pre@[i] < 128);
                push_ascii(&mut out, pre.as_slice());
                push_lower_hex(&mut out, expected.as_slice());
                let mid = vec![32u8, 98, 117, 116, 32, 105, 116, 32, 119, 97, 115, 32];
                assert(mid@ =~= mismatch_middle());
                assert(forall|i: int| 0 <= i < mid@.len() ==> mid@[i] < 128);
                push_ascii(&mut out, mid.as_slice());
                push_lower_hex(&mut out, actual.as_slice());
                assert(out@ =~= mismatch_message(expected@, actual@));
                ascii_string(out)
            },
        }
    }

    pub fn checksum_mismatch(expected: Vec<u8>, actual: Vec<u8>) -> (r: Self)
        ensures
            r == (Error::ChecksumMismatch { expected, actual }),
    {
        Error::ChecksumMismatch { expected, actual }
    }
}

/// Failures of an `aws-chunked` body.
#[derive(Debug, Clone, Copy, PartialEq, Eq, Structural)]
pub enum ChunkedError {
    /// The inner body did not yield the declared number of bytes;
    /// `received` counts what it yielded, up to `u64::MAX`.
    StreamLengthMismatch { stream_length: u64, received: u64 },
}

/// Failures while attaching a checksum to a request.
#[derive(Debug, Clone, Copy, PartialEq, Eq)]
pub enum RequestChecksumError {
    /// A streaming body declared no exact length, so its framed length cannot
    /// be computed ahead of transmission.
    UnsizedRequestBody,
    /// A checksum header was asked for on a body that must carry it as a trailer.
    ChecksumHeadersAreUnsupportedForStreamingBody,
}

} // verus!
