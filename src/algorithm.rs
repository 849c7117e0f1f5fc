//! Checksum algorithms and the client-wide checksum settings, with their names.
use vstd::prelude::*;
use vstd::string::StringSliceAdditionalSpecFns;
use crate::digests::base64_len;
use crate::error::{
    UnknownChecksumAlgorithmError, UnknownRequestChecksumCalculationError,
    UnknownResponseChecksumValidationError,
};

verus! {

/// The checksum algorithms a body can be checksummed with.
#[derive(Debug, Clone, Copy, PartialEq, Eq, Structural)]
pub enum ChecksumAlgorithm {
    Crc32,
    Crc32c,
    /// Recognised by name, but never used to checksum a request.
    Md5,
    Sha1,
    Sha256,
}

/// When request checksums are computed.
#[derive(Debug, Clone, Copy, PartialEq, Eq, Structural)]
pub enum RequestChecksumCalculation {
    /// Whenever the operation supports a checksum.
    WhenSupported,
    /// Only when the operation requires a checksum.
    WhenRequired,
}

/// When response checksums are validated.
#[derive(Debug, Clone, Copy, PartialEq, Eq, Structural)]
pub enum ResponseChecksumValidation {
    /// Whenever the operation supports a checksum.
    WhenSupported,
    /// Only when the operation requires a checksum.
    WhenRequired,
}

/// The ASCII lower-case form of a byte.
pub open spec fn ascii_lower(c: u8) -> u8 {
    if 65 <= c && c <= 90 {
        (c + 32) as u8
    } else {
        c
    }
}

/// Whether two byte strings are equal once ASCII letters are lower-cased.
pub open spec fn eq_ignore_ascii_case(a: Seq<u8>, b: Seq<u8>) -> bool {
    a.len() == b.len() && forall|i: int| 0 <= i < a.len() ==> ascii_lower(a[i]) == ascii_lower(b[i])
}

/// `crc32` in ASCII.
pub open spec fn crc32_name() -> Seq<u8> {
    seq![99u8, 114, 99, 51, 50]
}

/// `crc32c` in ASCII.
pub open spec fn crc32c_name() -> Seq<u8> {
    seq![99u8, 114, 99, 51, 50, 99]
}

/// `md5` in ASCII.
pub open spec fn md5_name() -> Seq<u8> {
    seq![109u8, 100, 53]
}

/// `sha1` in ASCII.
pub open spec fn sha1_name() -> Seq<u8> {
    seq![115u8, 104, 97, 49]
}

/// `sha256` in ASCII.
pub open spec fn sha256_name() -> Seq<u8> {
    seq![115u8, 104, 97, 50, 53, 54]
}

/// `when_supported` in ASCII.
pub open spec fn when_supported_name() -> Seq<u8> {
    seq![119u8, 104, 101, 110, 95, 115, 117, 112, 112, 111, 114, 116, 101, 100]
}

/// `when_required` in ASCII.
pub open spec fn when_required_name() -> Seq<u8> {
    seq![119u8, 104, 101, 110, 95, 114, 101, 113, 117, 105, 114, 101, 100]
}

/// `x-amz-checksum-crc32` in ASCII.
pub open spec fn crc32_header() -> Seq<u8> {
    seq![120u8, 45, 97, 109, 122, 45, 99, 104, 101, 99, 107, 115, 117, 109, 45, 99, 114, 99, 51, 50]
}

/// `x-amz-checksum-crc32c` in ASCII.
pub open spec fn crc32c_header() -> Seq<u8> {
    seq![120u8, 45, 97, 109, 122, 45, 99, 104, 101, 99, 107, 115, 117, 109, 45, 99, 114, 99, 51, 50, 99]
}

/// `content-md5` in ASCII.
pub open spec fn md5_header() -> Seq<u8> {
    seq![99u8, 111, 110, 116, 101, 110, 116, 45, 109, 100, 53]
}

/// `x-amz-checksum-sha1` in ASCII.
pub open spec fn sha1_header() -> Seq<u8> {
    seq![120u8, 45, 97, 109, 122, 45, 99, 104, 101, 99, 107, 115, 117, 109, 45, 115, 104, 97, 49]
}

/// `x-amz-checksum-sha256` in ASCII.
pub open spec fn sha256_header() -> Seq<u8> {
    seq![120u8, 45, 97, 109, 122, 45, 99, 104, 101, 99, 107, 115, 117, 109, 45, 115, 104, 97, 50, 53, 54]
}

/// The algorithm a name denotes, ignoring ASCII case.
pub open spec fn algorithm_named(name: Seq<u8>) -> Option<ChecksumAlgorithm> {
    if eq_ignore_ascii_case(name, crc32_name()) {
        Some(ChecksumAlgorithm::Crc32)
    } else if eq_ignore_ascii_case(name, crc32c_name()) {
        Some(ChecksumAlgorithm::Crc32c)
    } else if eq_ignore_ascii_case(name, md5_name()) {
        Some(ChecksumAlgorithm::Md5)
    } else if eq_ignore_ascii_case(name, sha1_name()) {
        Some(ChecksumAlgorithm::Sha1)
    } else if eq_ignore_ascii_case(name, sha256_name()) {
        Some(ChecksumAlgorithm::Sha256)
    } else {
        None
    }
}

/// The calculation policy a name denotes, ignoring ASCII case.
pub open spec fn calculation_named(name: Seq<u8>) -> Option<RequestChecksumCalculation> {
    if eq_ignore_ascii_case(name, when_supported_name()) {
        Some(RequestChecksumCalculation::WhenSupported)
    } else if eq_ignore_ascii_case(name, when_required_name()) {
        Some(RequestChecksumCalculation::WhenRequired)
    } else {
        None
    }
}

/// The validation policy a name denotes, ignoring ASCII case.
pub open spec fn validation_named(name: Seq<u8>) -> Option<ResponseChecksumValidation> {
    if eq_ignore_ascii_case(name, when_supported_name()) {
        Some(ResponseChecksumValidation::WhenSupported)
    } else if eq_ignore_ascii_case(name, when_required_name()) {
        Some(ResponseChecksumValidation::WhenRequired)
    } else {
        None
    }
}

/// Whether `a` and `b` are equal once ASCII letters are lower-cased.
pub fn bytes_eq_ignore_ascii_case(a: &[u8], b: &[u8]) -> (r: bool)
    ensures
        r == eq_ignore_ascii_case(a@, b@),
{
    if a.len() != b.len() {
        return false;
    }
    let mut i: usize = 0;
    while i < a.len()
        invariant
            a@.len() == b@.len(),
            0 <= i <= a@.len(),
            forall|j: int| 0 <= j < i ==> ascii_lower(a@[j]) == ascii_lower(b@[j]),
        decreases a@.len() - i,
    {
        let x = a[i];
        let y = b[i];
        let lx: u8 = if 65 <= x && x <= 90 { x + 32 } else { x };
        let ly: u8 = if 65 <= y && y <= 90 { y + 32 } else { y };
        if lx != ly {
            return false;
        }
        i = i + 1;
    }
    true
}

fn crc32_name_bytes() -> (r: Vec<u8>)
    ensures
        r@ == crc32_name(),
{
    let r = vec![99u8, 114, 99, 51, 50];
    assert(r@ =~= crc32_name());
    r
}

fn crc32c_name_bytes() -> (r: Vec<u8>)
    ensures
        r@ == crc32c_name(),
{
    let r = vec![99u8, 114, 99, 51, 50, 99];
    assert(r@ =~= crc32c_name());
    r
}

fn md5_name_bytes() -> (r: Vec<u8>)
    ensures
        r@ == md5_name(),
{
    let r = vec![109u8, 100, 53];
    assert(r@ =~= md5_name());
    r
}

fn sha1_name_bytes() -> (r: Vec<u8>)
    ensures
        r@ == sha1_name(),
{
    let r = vec![115u8, 104, 97, 49];
    assert(r@ =~= sha1_name());
    r
}

fn sha256_name_bytes() -> (r: Vec<u8>)
    ensures
        r@ == sha256_name(),
{
    let r = vec![115u8, 104, 97, 50, 53, 54];
    assert(r@ =~= sha256_name());
    r
}

fn when_supported_name_bytes() -> (r: Vec<u8>)
    ensures
        r@ == when_supported_name(),
{
    let r = vec![119u8, 104, 101, 110, 95, 115, 117, 112, 112, 111, 114, 116, 101, 100];
    assert(r@ =~= when_supported_name());
    r
}

fn when_required_name_bytes() -> (r: Vec<u8>)
    ensures
        r@ == when_required_name(),
{
    let r = vec![119u8, 104, 101, 110, 95, 114, 101, 113, 117, 105, 114, 101, 100];
    assert(r@ =~= when_required_name());
    r
}

fn crc32_header_bytes() -> (r: Vec<u8>)
    ensures
        r@ == crc32_header(),
{
    let r = vec![120u8, 45, 97, 109, 122, 45, 99, 104, 101, 99, 107, 115, 117, 109, 45, 99, 114, 99, 51, 50];
    assert(r@ =~= crc32_header());
    r
}

fn crc32c_header_bytes() -> (r: Vec<u8>)
    ensures
        r@ == crc32c_header(),
{
    let r = vec![120u8, 45, 97, 109, 122, 45, 99, 104, 101, 99, 107, 115, 117, 109, 45, 99, 114, 99, 51, 50, 99];
    assert(r@ =~= crc32c_header());
    r
}

fn md5_header_bytes() -> (r: Vec<u8>)
    ensures
        r@ == md5_header(),
{
    let r = vec![99u8, 111, 110, 116, 101, 110, 116, 45, 109, 100, 53];
    assert(r@ =~= md5_header());
    r
}

fn sha1_header_bytes() -> (r: Vec<u8>)
    ensures
        r@ == sha1_header(),
{
    let r = vec![120u8, 45, 97, 109, 122, 45, 99, 104, 101, 99, 107, 115, 117, 109, 45, 115, 104, 97, 49];
    assert(r@ =~= sha1_header());
    r
}

fn sha256_header_bytes() -> (r: Vec<u8>)
    ensures
        r@ == sha256_header(),
{
    let r = vec![120u8, 45, 97, 109, 122, 45, 99, 104, 101, 99, 107, 115, 117, 109, 45, 115, 104, 97, 50, 53, 54];
    assert(r@ =~= sha256_header());
    r
}

impl ChecksumAlgorithm {
    /// Parses an algorithm name (`crc32`, `crc32c`, `md5`, `sha1`, `sha256`), ignoring ASCII case.
    pub fn from_name(name: &str) -> (r: Result<ChecksumAlgorithm, UnknownChecksumAlgorithmError>)
        ensures
            algorithm_named(name.spec_bytes()) matches Some(a) ==> (r matches Ok(b) && b == a),
            algorithm_named(name.spec_bytes()) is None ==> (r matches Err(e) && e.name() == name@),
    {
        let b = name.as_bytes();
        if bytes_eq_ignore_ascii_case(b, crc32_name_bytes().as_slice()) {
            Ok(ChecksumAlgorithm::Crc32)
        } else if bytes_eq_ignore_ascii_case(b, crc32c_name_bytes().as_slice()) {
            Ok(ChecksumAlgorithm::Crc32c)
        } else if bytes_eq_ignore_ascii_case(b, md5_name_bytes().as_slice()) {
            Ok(ChecksumAlgorithm::Md5)
        } else if bytes_eq_ignore_ascii_case(b, sha1_name_bytes().as_slice()) {
            Ok(ChecksumAlgorithm::Sha1)
        } else if bytes_eq_ignore_ascii_case(b, sha256_name_bytes().as_slice()) {
            Ok(ChecksumAlgorithm::Sha256)
        } else {
            Err(UnknownChecksumAlgorithmError::new(name))
        }
    }

    /// Whether request bodies can be checksummed with this algorithm.
    pub open spec fn supports_requests(self) -> bool {
        !(self is Md5)
    }

    /// The name of the header (or trailer) that carries this algorithm's checksum.
    pub open spec fn spec_header_name(self) -> Seq<u8> {
        match self {
            ChecksumAlgorithm::Crc32 => crc32_header(),
            ChecksumAlgorithm::Crc32c => crc32c_header(),
            ChecksumAlgorithm::Md5 => md5_header(),
            ChecksumAlgorithm::Sha1 => sha1_header(),
            ChecksumAlgorithm::Sha256 => sha256_header(),
        }
    }

    /// A header name can stand in a trailer line: it holds no `:` and no `\r`.
    pub proof fn lemma_header_name_is_token(self)
        ensures
            !self.spec_header_name().contains(58),
            !self.spec_header_name().contains(13),
    {
        let n = self.spec_header_name();
        assert(forall|i: int| 0 <= i < n.len() ==> 45 <= #[trigger] n[i] && n[i] <= 122);
    }

    /// The length in bytes of this algorithm's digest.
    pub open spec fn digest_len(self) -> nat {
        match self {
            ChecksumAlgorithm::Crc32 => 4,
            ChecksumAlgorithm::Crc32c => 4,
            ChecksumAlgorithm::Md5 => 16,
            ChecksumAlgorithm::Sha1 => 20,
            ChecksumAlgorithm::Sha256 => 32,
        }
    }

    /// The length of the rendered trailer `<name>:<base64 digest>`.
    pub open spec fn trailer_size(self) -> nat {
        self.spec_header_name().len() + 1 + base64_len(self.digest_len())
    }

    /// The name of the header (or trailer) that carries this algorithm's checksum.
    pub fn header_name(&self) -> (r: Vec<u8>)
        ensures
            r@ == self.spec_header_name(),
    {
        match self {
            ChecksumAlgorithm::Crc32 => crc32_header_bytes(),
            ChecksumAlgorithm::Crc32c => crc32c_header_bytes(),
            ChecksumAlgorithm::Md5 => md5_header_bytes(),
            ChecksumAlgorithm::Sha1 => sha1_header_bytes(),
            ChecksumAlgorithm::Sha256 => sha256_header_bytes(),
        }
    }

    /// The length of the rendered trailer `<name>:<base64 digest>`.
    pub fn checksum_header_size(&self) -> (r: u64)
        ensures
            r == self.trailer_size(),
    {
        match self {
            ChecksumAlgorithm::Crc32 => 29,
            ChecksumAlgorithm::Crc32c => 30,
            ChecksumAlgorithm::Md5 => 36,
            ChecksumAlgorithm::Sha1 => 48,
            ChecksumAlgorithm::Sha256 => 66,
        }
    }
}

impl RequestChecksumCalculation {
    /// Parses `when_supported` or `when_required`, ignoring ASCII case.
    pub fn from_name(name: &str) -> (r: Result<
        RequestChecksumCalculation,
        UnknownRequestChecksumCalculationError,
    >)
        ensures
            calculation_named(name.spec_bytes()) matches Some(a) ==> (r matches Ok(b) && b == a),
            calculation_named(name.spec_bytes()) is None ==> (r matches Err(e) && e.value() == name@),
    {
        let b = name.as_bytes();
        if bytes_eq_ignore_ascii_case(b, when_supported_name_bytes().as_slice()) {
            Ok(RequestChecksumCalculation::WhenSupported)
        } else if bytes_eq_ignore_ascii_case(b, when_required_name_bytes().as_slice()) {
            Ok(RequestChecksumCalculation::WhenRequired)
        } else {
            Err(UnknownRequestChecksumCalculationError::new(name))
        }
    }
}

impl ResponseChecksumValidation {
    /// Parses `when_supported` or `when_required`, ignoring ASCII case.
    pub fn from_name(name: &str) -> (r: Result<
        ResponseChecksumValidation,
        UnknownResponseChecksumValidationError,
    >)
        ensures
            validation_named(name.spec_bytes()) matches Some(a) ==> (r matches Ok(b) && b == a),
            validation_named(name.spec_bytes()) is None ==> (r matches Err(e) && e.value() == name@),
    {
        let b = name.as_bytes();
        if bytes_eq_ignore_ascii_case(b, when_supported_name_bytes().as_slice()) {
            Ok(ResponseChecksumValidation::WhenSupported)
        } else if bytes_eq_ignore_ascii_case(b, when_required_name_bytes().as_slice()) {
            Ok(ResponseChecksumValidation::WhenRequired)
        } else {
            Err(UnknownResponseChecksumValidationError::new(name))
        }
    }
}

} // verus!
