//! Checksum-aware body decorators, driven by pulls.
//!
//! A caller pulls from the inner body and hands each outcome to the decorator,
//! which does its bounded work on it and returns what the decorated body
//! yields for that pull.
use vstd::prelude::*;
use crate::algorithm::{algorithm_named, ChecksumAlgorithm};
use crate::digests::{base64_len, is_base64_byte};
use crate::checksum::{digest_of, header_value_of, Checksum};
pub use crate::error::Error;
use crate::headers::{contains_header, hview, lookup, HeaderList};
use vstd::string::StringSliceAdditionalSpecFns;

verus! {

/// The outcome of pulling one chunk from a body.
#[derive(Debug)]
pub enum Pull<E> {
    /// A chunk of body bytes.
    Data(Vec<u8>),
    /// Nothing is ready yet; pull again later.
    Pending,
    /// The body has no more data.
    Done,
    /// The body failed.
    Failed(E),
}

/// Bounds on the number of bytes a body will yield.
#[derive(Debug, Clone, Copy, PartialEq, Eq, Structural)]
pub struct SizeHint {
    pub lower: u64,
    pub upper: Option<u64>,
}

impl SizeHint {
    /// The exact size, when both bounds agree.
    pub open spec fn spec_exact(self) -> Option<u64> {
        if self.upper == Some(self.lower) {
            Some(self.lower)
        } else {
            None
        }
    }

    pub fn with_exact(n: u64) -> (r: SizeHint)
        ensures
            r.lower == n,
            r.upper == Some(n),
    {
        SizeHint { lower: n, upper: Some(n) }
    }

    pub fn exact(&self) -> (r: Option<u64>)
        ensures
            r == self.spec_exact(),
    {
        match self.upper {
            Some(u) => if u == self.lower {
                Some(u)
            } else {
                None
            },
            None => None,
        }
    }
}

/// Whether a pull passes through a decorator unchanged.
pub open spec fn same_pull<E>(a: Pull<E>, b: Pull<E>) -> bool {
    match (a, b) {
        (Pull::Data(x), Pull::Data(y)) => x@ == y@,
        (Pull::Pending, Pull::Pending) => true,
        (Pull::Done, Pull::Done) => true,
        (Pull::Failed(x), Pull::Failed(y)) => x == y,
        _ => false,
    }
}

/// The bytes a pull adds to a checksum: the chunk, or nothing.
pub open spec fn pulled_bytes<E>(p: Pull<E>) -> Seq<u8> {
    match p {
        Pull::Data(d) => d@,
        _ => Seq::empty(),
    }
}

/// The trailers of a writing body: the inner trailers, with the checksum
/// field added unless the inner body already sent a field of that name.
pub open spec fn merged_trailers(
    inner: Option<Seq<(Seq<u8>, Seq<u8>)>>,
    name: Seq<u8>,
    value: Seq<u8>,
) -> Seq<(Seq<u8>, Seq<u8>)> {
    match inner {
        None => seq![(name, value)],
        Some(t) => if lookup(t, name) is Some {
            t
        } else {
            t.push((name, value))
        },
    }
}

/// A body that passes its inner body's chunks through unchanged while
/// checksumming them, and sends the checksum as a trailer at the end.
pub struct ChecksumBody {
    checksum: Option<Checksum>,
    algorithm: ChecksumAlgorithm,
    consumed: Ghost<Seq<u8>>,
}

impl ChecksumBody {
    /// The algorithm of the checksum.
    pub closed spec fn algorithm(&self) -> ChecksumAlgorithm {
        self.algorithm
    }

    /// Every byte passed through so far.
    pub closed spec fn consumed(&self) -> Seq<u8> {
        self.consumed@
    }

    /// Whether the trailers, and so the checksum, have been produced.
    pub closed spec fn trailers_sent(&self) -> bool {
        self.checksum is None
    }

    pub closed spec fn wf(&self) -> bool {
        &&& self.algorithm.supports_requests()
        &&& match self.checksum {
            Some(c) => c.algorithm() == self.algorithm && c.input() == self.consumed@,
            None => true,
        }
    }

    /// A writing body for the algorithm called `checksum_algorithm`.
    pub fn new(checksum_algorithm: &str) -> (r: Self)
        requires
            algorithm_named(checksum_algorithm.spec_bytes()) matches Some(a)
                && a.supports_requests(),
        ensures
            r.wf(),
            Some(r.algorithm()) == algorithm_named(checksum_algorithm.spec_bytes()),
            r.consumed() == Seq::<u8>::empty(),
            !r.trailers_sent(),
    {
        match ChecksumAlgorithm::from_name(checksum_algorithm) {
            Ok(a) => Self::with_algorithm(a),
            Err(_) => {
                proof {
                    assert(false);
                }
                Self::with_algorithm(ChecksumAlgorithm::Crc32)
            },
        }
    }

    /// A writing body for `algorithm`.
    pub fn with_algorithm(algorithm: ChecksumAlgorithm) -> (r: Self)
        requires
            algorithm.supports_requests(),
        ensures
            r.wf(),
            r.algorithm() == algorithm,
            r.consumed() == Seq::<u8>::empty(),
            !r.trailers_sent(),
    {
        ChecksumBody {
            checksum: Some(Checksum::new(algorithm)),
            algorithm,
            consumed: Ghost(Seq::empty()),
        }
    }

    /// The name of the checksum trailer.
    pub fn trailer_name(&self) -> (r: Vec<u8>)
        ensures
            r@ == self.algorithm().spec_header_name(),
    {
        self.algorithm.header_name()
    }

    /// The length of the rendered checksum trailer `<name>:<value>`.
    pub fn trailer_length(&self) -> (r: u64)
        ensures
            r == self.algorithm().trailer_size(),
    {
        self.algorithm.checksum_header_size()
    }

    /// Handles one pull of the inner body: a chunk is checksummed and passed
    /// on unchanged; any other outcome is passed on with no checksum work.
    pub fn poll_data<E>(&mut self, inner: Pull<E>) -> (r: Pull<E>)
        requires
            old(self).wf(),
            !old(self).trailers_sent(),
        ensures
            final(self).wf(),
            !final(self).trailers_sent(),
            final(self).algorithm() == old(self).algorithm(),
            final(self).consumed() == old(self).consumed() + pulled_bytes(inner),
            same_pull(r, inner),
    {
        match inner {
            Pull::Data(d) => {
                let mut c = self.checksum.take().unwrap();
                c.update(d.as_slice());
                self.checksum = Some(c);
                self.consumed = Ghost(self.consumed@ + d@);
                Pull::Data(d)
            },
            other => other,
        }
    }

    /// The trailers once the inner body is exhausted: the inner trailers with
    /// the checksum field merged in; a field the inner body sent wins.
    pub fn poll_trailers(&mut self, inner: Option<HeaderList>) -> (r: HeaderList)
        requires
            old(self).wf(),
            !old(self).trailers_sent(),
        ensures
            final(self).wf(),
            final(self).trailers_sent(),
            final(self).algorithm() == old(self).algorithm(),
            final(self).consumed() == old(self).consumed(),
            hview(r@) == merged_trailers(
                match inner {
                    Some(t) => Some(hview(t@)),
                    None => None,
                },
                old(self).algorithm().spec_header_name(),
                header_value_of(old(self).algorithm(), old(self).consumed()),
            ),
            header_value_of(old(self).algorithm(), old(self).consumed()).len() == base64_len(
                old(self).algorithm().digest_len(),
            ),
            !header_value_of(old(self).algorithm(), old(self).consumed()).contains(13),
    {
        let c = self.checksum.take().unwrap();
        let name = c.header_name();
        let value = c.header_value();
        assert(!value@.contains(13)) by {
            if value@.contains(13) {
                let j = choose|j: int| 0 <= j < value@.len() && value@[j] == 13;
                assert(is_base64_byte(value@[j]));
            }
        }
        match inner {
            None => {
                let r = vec![(name, value)];
                assert(hview(r@) =~= seq![(name@, value@)]);
                r
            },
            Some(mut t) => {
                if !contains_header(&t, name.as_slice()) {
                    let ghost old_t = t@;
                    t.push((name, value));
                    assert(hview(t@) =~= hview(old_t).push((name@, value@)));
                }
                t
            },
        }
    }

    /// The inner body's size hint widened by the checksum trailer.
    pub fn size_hint(&self, inner: SizeHint) -> (r: SizeHint)
        requires
            inner.lower + self.algorithm().trailer_size() <= u64::MAX,
            inner.upper matches Some(u) ==> u + self.algorithm().trailer_size() <= u64::MAX,
        ensures
            r.lower == inner.lower + self.algorithm().trailer_size(),
            r.upper == match inner.upper {
                Some(u) => Some((u + self.algorithm().trailer_size()) as u64),
                None => None,
            },
            inner.spec_exact() matches Some(n) ==> r.spec_exact() == Some(
                (n + self.algorithm().trailer_size()) as u64,
            ),
    {
        let size = self.trailer_length();
        match inner.exact() {
            Some(n) => SizeHint::with_exact(n + size),
            None => SizeHint {
                lower: inner.lower + size,
                upper: match inner.upper {
                    Some(u) => Some(u + size),
                    None => None,
                },
            },
        }
    }
}

/// Whether two byte strings are equal.
pub fn bytes_eq(a: &[u8], b: &[u8]) -> (r: bool)
    ensures
        r == (a@ == b@),
{
    if a.len() != b.len() {
        return false;
    }
    let mut i: usize = 0;
    while i < a.len()
        invariant
            a@.len() == b@.len(),
            0 <= i <= a@.len(),
            forall|j: int| 0 <= j < i ==> a@[j] == b@[j],
        decreases a@.len() - i,
    {
        if a[i] != b[i] {
            return false;
        }
        i = i + 1;
    }
    assert(a@ =~= b@);
    true
}

/// What a validating body yields when a pull fails.
#[derive(Debug)]
pub enum ValidationError<E> {
    /// The inner body failed.
    Inner(E),
    /// The inner body completed, but its digest is not the expected one.
    Checksum(Error),
}

/// A body that passes its inner body's chunks through while checksumming
/// them, and at the end fails instead of completing if the digest differs
/// from the expected one.
pub struct ChecksumValidatedBody {
    checksum: Option<Checksum>,
    algorithm: ChecksumAlgorithm,
    precalculated_checksum: Vec<u8>,
    actual: Option<Vec<u8>>,
    consumed: Ghost<Seq<u8>>,
}

impl ChecksumValidatedBody {
    pub closed spec fn algorithm(&self) -> ChecksumAlgorithm {
        self.algorithm
    }

    /// The digest the body is expected to have.
    pub closed spec fn expected(&self) -> Seq<u8> {
        self.precalculated_checksum@
    }

    /// Every byte passed through so far.
    pub closed spec fn consumed(&self) -> Seq<u8> {
        self.consumed@
    }

    /// Whether the inner body has completed and the digest has been compared.
    pub closed spec fn validated(&self) -> bool {
        self.checksum is None
    }

    pub closed spec fn wf(&self) -> bool {
        match self.checksum {
            Some(c) => c.algorithm() == self.algorithm && c.input() == self.consumed@
                && self.actual is None,
            None => self.actual matches Some(a) && a@ == digest_of(self.algorithm, self.consumed@),
        }
    }

    /// Whether the digest of what was passed through is the expected one.
    pub open spec fn digest_matches(&self) -> bool {
        digest_of(self.algorithm(), self.consumed()) == self.expected()
    }

    /// A validating body for the algorithm called `checksum_algorithm`; every
    /// known algorithm, MD5 included, can validate a body.
    pub fn new(checksum_algorithm: &str, precalculated_checksum: Vec<u8>) -> (r: Self)
        requires
            algorithm_named(checksum_algorithm.spec_bytes()) is Some,
        ensures
            r.wf(),
            Some(r.algorithm()) == algorithm_named(checksum_algorithm.spec_bytes()),
            r.expected() == precalculated_checksum@,
            r.consumed() == Seq::<u8>::empty(),
            !r.validated(),
    {
        let algorithm = match ChecksumAlgorithm::from_name(checksum_algorithm) {
            Ok(a) => a,
            Err(_) => {
                proof {
                    assert(false);
                }
                ChecksumAlgorithm::Crc32
            },
        };
        ChecksumValidatedBody {
            checksum: Some(Checksum::new(algorithm)),
            algorithm,
            precalculated_checksum,
            actual: None,
            consumed: Ghost(Seq::empty()),
        }
    }

    /// Handles one pull of the inner body. Chunks are checksummed and passed
    /// on; when the inner body is done, the body completes only if the digest
    /// matches, and otherwise fails with a mismatch, on that pull and every
    /// later one.
    pub fn poll_data<E>(&mut self, inner: Pull<E>) -> (r: Pull<ValidationError<E>>)
        requires
            old(self).wf(),
            old(self).validated() ==> inner is Done,
        ensures
            final(self).wf(),
            final(self).algorithm() == old(self).algorithm(),
            final(self).expected() == old(self).expected(),
            final(self).consumed() == old(self).consumed() + pulled_bytes(inner),
            final(self).validated() == (old(self).validated() || inner is Done),
            match inner {
                Pull::Data(d) => r matches Pull::Data(x) && x@ == d@,
                Pull::Pending => r is Pending,
                Pull::Failed(e) => r matches Pull::Failed(ValidationError::Inner(x)) && x == e,
                Pull::Done => if final(self).digest_matches() {
                    r is Done
                } else {
                    r matches Pull::Failed(ValidationError::Checksum(Error::ChecksumMismatch { expected, actual }))
                        && expected@ == final(self).expected()
                        && actual@ == digest_of(final(self).algorithm(), final(self).consumed())
                },
            },
    {
        match inner {
            Pull::Data(d) => {
                let mut c = self.checksum.take().unwrap();
                c.update(d.as_slice());
                self.checksum = Some(c);
                self.consumed = Ghost(self.consumed@ + d@);
                Pull::Data(d)
            },
            Pull::Pending => Pull::Pending,
            Pull::Failed(e) => Pull::Failed(ValidationError::Inner(e)),
            Pull::Done => {
                assert(self.consumed@ + Seq::<u8>::empty() =~= self.consumed@);
                if self.checksum.is_some() {
                    let c = self.checksum.take().unwrap();
                    self.actual = Some(c.finalize());
                }
                let actual = self.actual.clone().unwrap();
                if bytes_eq(self.precalculated_checksum.as_slice(), actual.as_slice()) {
                    Pull::Done
                } else {
                    Pull::Failed(
                        ValidationError::Checksum(
                            Error::checksum_mismatch(self.precalculated_checksum.clone(), actual),
                        ),
                    )
                }
            },
        }
    }

    /// Trailers come from the inner body unchanged.
    pub fn poll_trailers(&self, inner: Option<HeaderList>) -> (r: Option<HeaderList>)
        ensures
            r == inner,
    {
        inner
    }

    /// Never reports the end of the stream: only draining it, which runs the
    /// digest comparison, shows that it is complete.
    pub fn is_end_stream(&self) -> (r: bool)
        ensures
            !r,
    {
        false
    }

    /// The inner body's size hint, unchanged.
    pub fn size_hint(&self, inner: SizeHint) -> (r: SizeHint)
        ensures
            r == inner,
    {
        inner
    }
}

} // verus!
