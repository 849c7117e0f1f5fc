//! The two-phase request checksum protocol.
//!
//! Before serialization the operation's checksum requirements are resolved
//! into a per-request state. Before signing, that state and the client's
//! settings decide whether a checksum is computed, with which algorithm, and
//! whether it travels as a header (in-memory body) or as a trailer of an
//! `aws-chunked` body (streaming body).
use vstd::prelude::*;
use crate::algorithm::{ChecksumAlgorithm, RequestChecksumCalculation};
use crate::body::{ChecksumBody, SizeHint};
use crate::checksum::{header_value_of, Checksum};
use crate::chunked::{encoded_length_of, AwsChunkedBody, AwsChunkedBodyOptions};
use crate::error::RequestChecksumError;
use crate::headers::{
    contains_header, hview, insert, lemma_push_absent_lookup, lookup, set_header, HeaderList,
};

verus! {

/// `x-amz-trailer` in ASCII.
pub open spec fn trailer_header() -> Seq<u8> {
    seq![120u8, 45, 97, 109, 122, 45, 116, 114, 97, 105, 108, 101, 114]
}

/// `content-length` in ASCII.
pub open spec fn content_length_header() -> Seq<u8> {
    seq![99u8, 111, 110, 116, 101, 110, 116, 45, 108, 101, 110, 103, 116, 104]
}

/// `x-amz-decoded-content-length` in ASCII.
pub open spec fn decoded_length_header() -> Seq<u8> {
    seq![120u8, 45, 97, 109, 122, 45, 100, 101, 99, 111, 100, 101, 100, 45, 99, 111, 110, 116, 101, 110, 116, 45, 108, 101, 110, 103, 116, 104]
}

/// `content-encoding` in ASCII.
pub open spec fn content_encoding_header() -> Seq<u8> {
    seq![99u8, 111, 110, 116, 101, 110, 116, 45, 101, 110, 99, 111, 100, 105, 110, 103]
}

/// `aws-chunked` in ASCII.
pub open spec fn aws_chunked() -> Seq<u8> {
    seq![97u8, 119, 115, 45, 99, 104, 117, 110, 107, 101, 100]
}

/// `n` in decimal, without leading zeros.
pub open spec fn dec(n: nat) -> Seq<u8>
    decreases n,
{
    if n < 10 {
        seq![(48 + n) as u8]
    } else {
        dec(n / 10).push((48 + n % 10) as u8)
    }
}

fn dec_bytes(n: u64) -> (r: Vec<u8>)
    ensures
        r@ == dec(n as nat),
    decreases n,
{
    let digit: u8 = 48 + (n % 10) as u8;
    if n < 10 {
        let r = vec![digit];
        assert(r@ =~= dec(n as nat));
        r
    } else {
        let mut r = dec_bytes(n / 10);
        r.push(digit);
        r
    }
}

fn trailer_header_bytes() -> (r: Vec<u8>)
    ensures
        r@ == trailer_header(),
{
    let r = vec![120u8, 45, 97, 109, 122, 45, 116, 114, 97, 105, 108, 101, 114];
    assert(r@ =~= trailer_header());
    r
}

fn content_length_header_bytes() -> (r: Vec<u8>)
    ensures
        r@ == content_length_header(),
{
    let r = vec![99u8, 111, 110, 116, 101, 110, 116, 45, 108, 101, 110, 103, 116, 104];
    assert(r@ =~= content_length_header());
    r
}

fn decoded_length_header_bytes() -> (r: Vec<u8>)
    ensures
        r@ == decoded_length_header(),
{
    let r = vec![120u8, 45, 97, 109, 122, 45, 100, 101, 99, 111, 100, 101, 100, 45, 99, 111, 110, 116, 101, 110, 116, 45, 108, 101, 110, 103, 116, 104];
    assert(r@ =~= decoded_length_header());
    r
}

fn content_encoding_header_bytes() -> (r: Vec<u8>)
    ensures
        r@ == content_encoding_header(),
{
    let r = vec![99u8, 111, 110, 116, 101, 110, 116, 45, 101, 110, 99, 111, 100, 105, 110, 103];
    assert(r@ =~= content_encoding_header());
    r
}

fn aws_chunked_bytes() -> (r: Vec<u8>)
    ensures
        r@ == aws_chunked(),
{
    let r = vec![97u8, 119, 115, 45, 99, 104, 117, 110, 107, 101, 100];
    assert(r@ =~= aws_chunked());
    r
}

/// What the first phase resolved for one request.
#[derive(Debug, Clone, Copy, PartialEq, Eq, Structural)]
pub struct RequestChecksumInterceptorState {
    /// The algorithm the request asked for, if any.
    pub checksum_algorithm: Option<ChecksumAlgorithm>,
    /// Whether the operation requires a checksum.
    pub request_checksum_required: bool,
}

/// A request body.
pub enum RequestBody {
    /// Held in memory.
    Bytes(Vec<u8>),
    /// Streamed by the caller, with the given size hint.
    Streaming(SizeHint),
    /// A body wrapped in the `aws-chunked` encoding with a checksum trailer;
    /// the second field is the body it wraps, whose bytes it is fed.
    AwsChunked(AwsChunkedBody, Box<RequestBody>),
}

/// A request as the checksum protocol sees it.
pub struct HttpRequest {
    pub headers: HeaderList,
    pub body: RequestBody,
}

/// The part of the signing configuration the checksum protocol sets.
#[derive(Debug, Clone, Copy, PartialEq, Eq, Structural)]
pub struct SigningOptions {
    /// Whether the payload is signed as unsigned streaming with a trailer.
    pub streaming_unsigned_payload_trailer: bool,
}

/// What the second phase did.
#[derive(Debug, Clone, Copy, PartialEq, Eq, Structural)]
pub enum ChecksumDecision {
    /// The settings asked for no checksum.
    NotCalculated,
    /// The resolved algorithm cannot checksum requests; nothing was applied.
    Unsupported(ChecksumAlgorithm),
    /// A checksum with this algorithm applies to the request (it may have
    /// been set by the caller already).
    Calculated(ChecksumAlgorithm),
}

/// Whether a checksum is computed under the given settings.
pub open spec fn calculates(
    state: RequestChecksumInterceptorState,
    calculation: Option<RequestChecksumCalculation>,
) -> bool {
    match calculation {
        Some(RequestChecksumCalculation::WhenRequired) => state.request_checksum_required,
        _ => true,
    }
}

/// The algorithm used when none was resolved.
pub open spec fn or_default(a: Option<ChecksumAlgorithm>) -> ChecksumAlgorithm {
    match a {
        Some(x) => x,
        None => ChecksumAlgorithm::Crc32,
    }
}

/// The headers a request carries once its streaming body of `len` bytes is
/// wrapped in the `aws-chunked` encoding for `alg`.
pub open spec fn chunked_headers(
    h: Seq<(Seq<u8>, Seq<u8>)>,
    alg: ChecksumAlgorithm,
    len: nat,
    encoded_len: nat,
) -> Seq<(Seq<u8>, Seq<u8>)> {
    insert(
        insert(
            insert(insert(h, trailer_header(), alg.spec_header_name()), content_length_header(), dec(encoded_len)),
            decoded_length_header(),
            dec(len),
        ),
        content_encoding_header(),
        aws_chunked(),
    )
}

/// Whether the optional override hook turns `prev` into `o`.
pub open spec fn overridden_to<F: Fn(Option<ChecksumAlgorithm>) -> Option<ChecksumAlgorithm>>(
    custom_default: Option<F>,
    prev: Option<ChecksumAlgorithm>,
    o: Option<ChecksumAlgorithm>,
) -> bool {
    match custom_default {
        Some(f) => f.ensures((prev,), o),
        None => o == prev,
    }
}

/// The algorithm after an optional override hook has had its say.
pub fn incorporate_custom_default<F: Fn(Option<ChecksumAlgorithm>) -> Option<ChecksumAlgorithm>>(
    checksum: Option<ChecksumAlgorithm>,
    custom_default: &Option<F>,
) -> (r: Option<ChecksumAlgorithm>)
    requires
        custom_default matches Some(f) ==> f.requires((checksum,)),
    ensures
        overridden_to(*custom_default, checksum, r),
{
    match custom_default {
        Some(f) => f(checksum),
        None => checksum,
    }
}

/// The exact size of a request body, when it is known: the length of an
/// in-memory body, the exact size hint of a streaming one, the declared
/// encoded length of an `aws-chunked` one.
pub open spec fn exact_size(body: RequestBody) -> Option<u64> {
    match body {
        RequestBody::Bytes(d) => Some(d@.len() as u64),
        RequestBody::Streaming(hint) => hint.spec_exact(),
        RequestBody::AwsChunked(b, _) => if encoded_length_of(
            b.stream_length() as nat,
            b.trailer_lengths(),
        ) <= u64::MAX {
            Some(encoded_length_of(b.stream_length() as nat, b.trailer_lengths()) as u64)
        } else {
            None
        },
    }
}

/// Whether a body of `len` bytes can be wrapped for `alg`: its encoded
/// length must fit in a `u64`.
pub open spec fn wrappable(alg: ChecksumAlgorithm, len: u64) -> bool {
    encoded_length_of(len as nat, seq![alg.trailer_size() as u64]) <= u64::MAX
}

/// The exact size of a request body, when it is known.
pub fn body_exact_size(body: &RequestBody) -> (r: Option<u64>)
    ensures
        r == exact_size(*body),
{
    match body {
        RequestBody::Bytes(d) => Some(d.len() as u64),
        RequestBody::Streaming(hint) => hint.exact(),
        RequestBody::AwsChunked(b, _) => b.encoded_length(),
    }
}

/// Wraps a body of exactly known size in a checksum trailer and the
/// `aws-chunked` encoding, and sets the headers that declare it, unless the
/// checksum header is already set. A body of unknown size is refused.
pub fn wrap_streaming_request_body_in_checksum_calculating_body(
    request: &mut HttpRequest,
    checksum_algorithm: ChecksumAlgorithm,
) -> (r: Result<(), RequestChecksumError>)
    requires
        checksum_algorithm.supports_requests(),
    ensures
        lookup(hview(old(request).headers@), checksum_algorithm.spec_header_name()) is Some
            ==> r is Ok && *final(request) == *old(request),
        lookup(hview(old(request).headers@), checksum_algorithm.spec_header_name()) is None
            ==> match exact_size(old(request).body) {
            Some(len) => if wrappable(checksum_algorithm, len) {
                &&& r is Ok
                &&& hview(final(request).headers@) == chunked_headers(
                    hview(old(request).headers@),
                    checksum_algorithm,
                    len as nat,
                    encoded_length_of(len as nat, seq![checksum_algorithm.trailer_size() as u64]),
                )
                &&& fresh_chunked_body(final(request).body, checksum_algorithm, len, old(request).body)
            } else {
                r == Err::<(), _>(RequestChecksumError::UnsizedRequestBody) && *final(request)
                    == *old(request)
            },
            None => r == Err::<(), _>(RequestChecksumError::UnsizedRequestBody)
                && *final(request) == *old(request),
        },
{
    let name = checksum_algorithm.header_name();
    if contains_header(&request.headers, name.as_slice()) {
        return Ok(());
    }
    let original_body_size = match body_exact_size(&request.body) {
        Some(n) => n,
        None => return Err(RequestChecksumError::UnsizedRequestBody),
    };
    let writer = ChecksumBody::with_algorithm(checksum_algorithm);
    let trailer_len = writer.trailer_length();
    let options = AwsChunkedBodyOptions::new(original_body_size, vec![trailer_len]);
    let ghost lens = options.trailer_lengths@;
    assert(lens =~= seq![checksum_algorithm.trailer_size() as u64]);
    let encoded_content_length = match options.encoded_length() {
        Some(n) => n,
        None => return Err(RequestChecksumError::UnsizedRequestBody),
    };
    let chunked = AwsChunkedBody::new(writer, options);
    set_header(&mut request.headers, trailer_header_bytes(), name);
    set_header(&mut request.headers, content_length_header_bytes(), dec_bytes(encoded_content_length));
    set_header(&mut request.headers, decoded_length_header_bytes(), dec_bytes(original_body_size));
    set_header(&mut request.headers, content_encoding_header_bytes(), aws_chunked_bytes());
    let mut inner = RequestBody::Streaming(SizeHint { lower: 0, upper: None });
    core::mem::swap(&mut request.body, &mut inner);
    request.body = RequestBody::AwsChunked(chunked, Box::new(inner));
    Ok(())
}

/// Applies a checksum with `checksum_algorithm` to the request: as a header
/// computed over an in-memory body, or as a trailer of a streaming body.
/// A checksum header the caller set is kept as it is.
pub fn add_checksum_for_request_body(
    request: &mut HttpRequest,
    checksum_algorithm: ChecksumAlgorithm,
    signing: &mut Option<SigningOptions>,
) -> (r: Result<(), RequestChecksumError>)
    requires
        checksum_algorithm.supports_requests(),
    ensures
        added_checksum(
            *old(request),
            *final(request),
            *old(signing),
            *final(signing),
            checksum_algorithm,
            r is Ok,
        ),
        r is Err ==> r == Err::<(), _>(RequestChecksumError::UnsizedRequestBody),
{
    match &request.body {
        RequestBody::Bytes(data) => {
            let name = checksum_algorithm.header_name();
            if !contains_header(&request.headers, name.as_slice()) {
                let mut checksum = Checksum::new(checksum_algorithm);
                checksum.update(data.as_slice());
                let value = checksum.header_value();
                let ghost old_h = request.headers@;
                request.headers.push((name, value));
                assert(hview(request.headers@) =~= hview(old_h).push((name@, value@)));
            }
            Ok(())
        },
        _ => {
            let had_header = contains_header(&request.headers, checksum_algorithm.header_name().as_slice());
            let r = wrap_streaming_request_body_in_checksum_calculating_body(request, checksum_algorithm);
            if r.is_ok() && !had_header {
                match signing {
                    Some(s) => {
                        s.streaming_unsigned_payload_trailer = true;
                    },
                    None => {},
                }
            }
            r
        },
    }
}

/// The protocol's hooks: one that reads which algorithm (if any) the request
/// asks for and whether the operation requires a checksum, and one that may
/// normalise the request input first.
pub struct RequestChecksumInterceptor<AP, CM> {
    algorithm_provider: AP,
    checksum_mutator: CM,
}

impl<AP, CM> RequestChecksumInterceptor<AP, CM> {
    pub closed spec fn provider(&self) -> AP {
        self.algorithm_provider
    }

    pub closed spec fn mutator(&self) -> CM {
        self.checksum_mutator
    }

    pub fn new(algorithm_provider: AP, checksum_mutator: CM) -> (r: Self)
        ensures
            r.provider() == algorithm_provider,
            r.mutator() == checksum_mutator,
    {
        RequestChecksumInterceptor { algorithm_provider, checksum_mutator }
    }

    /// The name the protocol goes by.
    pub fn name(&self) -> (r: &'static str)
        ensures
            r@ == "RequestChecksumInterceptor"@,
    {
        "RequestChecksumInterceptor"
    }

    /// The first phase: lets the mutator normalise the input, then asks the
    /// provider for the algorithm and requirement. A failure of either aborts
    /// with its error (the provider is not asked once the mutator failed);
    /// otherwise a fresh state is returned, to replace any earlier one.
    pub fn modify_before_serialization<I, E>(&self, input: I) -> (r: Result<
        (I, RequestChecksumInterceptorState),
        E,
    >) where
        AP: Fn(&I) -> Result<(Option<ChecksumAlgorithm>, bool), E>,
        CM: Fn(I) -> (I, Result<(), E>),

        requires
            self.mutator().requires((input,)),
            forall|m: (I, Result<(), E>)| #[trigger] self.mutator().ensures((input,), m) && m.1 is Ok
                ==> self.provider().requires((&m.0,)),
        ensures
            exists|m: (I, Result<(), E>)| #[trigger] self.mutator().ensures((input,), m) && match m.1 {
                Err(e) => r matches Err(x) && x == e,
                Ok(_) => exists|p: Result<(Option<ChecksumAlgorithm>, bool), E>| #[trigger] self.provider().ensures(
                    (&m.0,),
                    p,
                ) && match p {
                    Ok((a, required)) => r matches Ok((i, s)) && i == m.0 && s
                        == (RequestChecksumInterceptorState {
                        checksum_algorithm: a,
                        request_checksum_required: required,
                    }),
                    Err(e) => r matches Err(x) && x == e,
                },
            },
    {
        let (input, mutated) = (self.checksum_mutator)(input);
        match mutated {
            Ok(()) => {},
            Err(e) => return Err(e),
        }
        match (self.algorithm_provider)(&input) {
            Ok((checksum_algorithm, request_checksum_required)) => Ok(
                (input, RequestChecksumInterceptorState { checksum_algorithm, request_checksum_required }),
            ),
            Err(e) => Err(e),
        }
    }

    /// Records the calculation policy in force: the configured one, or
    /// `WhenSupported` when none is configured.
    pub fn read_after_serialization(&self, calculation: Option<RequestChecksumCalculation>) -> (r:
        RequestChecksumCalculation)
        ensures
            r == match calculation {
                Some(c) => c,
                None => RequestChecksumCalculation::WhenSupported,
            },
    {
        match calculation {
            Some(c) => c,
            None => RequestChecksumCalculation::WhenSupported,
        }
    }

    /// The second phase: decides whether to checksum the request and with
    /// which algorithm, then applies it as a header or a trailer.
    pub fn modify_before_signing<F: Fn(Option<ChecksumAlgorithm>) -> Option<ChecksumAlgorithm>>(
        &self,
        state: &RequestChecksumInterceptorState,
        calculation: Option<RequestChecksumCalculation>,
        custom_default: &Option<F>,
        request: &mut HttpRequest,
        signing: &mut Option<SigningOptions>,
    ) -> (r: Result<ChecksumDecision, RequestChecksumError>)
        requires
            custom_default matches Some(f) ==> f.requires((state.checksum_algorithm,)),
        ensures
            !calculates(*state, calculation) ==> r == Ok::<_, RequestChecksumError>(
                ChecksumDecision::NotCalculated,
            ) && *final(request) == *old(request) && *final(signing) == *old(signing),
            calculates(*state, calculation) ==> exists|o: Option<ChecksumAlgorithm>| {
                &&& #[trigger] overridden_to(*custom_default, state.checksum_algorithm, o)
                &&& if or_default(o).supports_requests() {
                    &&& (r matches Ok(d) ==> d == ChecksumDecision::Calculated(or_default(o)))
                    &&& added_checksum(*old(request), *final(request), *old(signing), *final(signing), or_default(o), r is Ok)
                } else {
                    r == Ok::<_, RequestChecksumError>(ChecksumDecision::Unsupported(or_default(o)))
                        && *final(request) == *old(request) && *final(signing) == *old(signing)
                }
            },
    {
        let calculate = match calculation {
            Some(RequestChecksumCalculation::WhenRequired) => state.request_checksum_required,
            _ => true,
        };
        if !calculate {
            return Ok(ChecksumDecision::NotCalculated);
        }
        let o = incorporate_custom_default(state.checksum_algorithm, custom_default);
        let checksum_algorithm = match o {
            Some(a) => a,
            None => ChecksumAlgorithm::Crc32,
        };
        if let ChecksumAlgorithm::Md5 = checksum_algorithm {
            return Ok(ChecksumDecision::Unsupported(checksum_algorithm));
        }
        match add_checksum_for_request_body(request, checksum_algorithm, signing) {
            Ok(()) => Ok(ChecksumDecision::Calculated(checksum_algorithm)),
            Err(e) => Err(e),
        }
    }
}

/// Whether `body` is a fresh `aws-chunked` body for `alg` around `inner`, a
/// body of `len` bytes, declaring one checksum trailer.
pub open spec fn fresh_chunked_body(
    body: RequestBody,
    alg: ChecksumAlgorithm,
    len: u64,
    inner: RequestBody,
) -> bool {
    body matches RequestBody::AwsChunked(b, i) && *i == inner && b.wf() && !b.finished() && b.algorithm() == alg
        && b.chunks() == Seq::<Seq<u8>>::empty() && b.emitted() == Seq::<u8>::empty()
        && b.stream_length() == len && b.trailer_lengths() == seq![alg.trailer_size() as u64]
}

/// What `add_checksum_for_request_body` promises, as a relation between the
/// request and signing options before and after, for a call that succeeded
/// (`ok`) or not.
pub open spec fn added_checksum(
    req: HttpRequest,
    req2: HttpRequest,
    sig: Option<SigningOptions>,
    sig2: Option<SigningOptions>,
    alg: ChecksumAlgorithm,
    ok: bool,
) -> bool {
    let name = alg.spec_header_name();
    let preset = lookup(hview(req.headers@), name) is Some;
    match req.body {
        RequestBody::Bytes(data) => {
            &&& ok
            &&& req2.body == req.body
            &&& sig2 == sig
            &&& if preset {
                req2.headers == req.headers
            } else {
                hview(req2.headers@) == hview(req.headers@).push((name, header_value_of(alg, data@)))
            }
        },
        _ => {
            &&& preset ==> ok && req2 == req && sig2 == sig
            &&& !ok ==> req2 == req && sig2 == sig
            &&& ok && !preset ==> sig2 == match sig {
                Some(_) => Some(SigningOptions { streaming_unsigned_payload_trailer: true }),
                None => None,
            }
            &&& (exact_size(req.body) matches Some(len) && wrappable(alg, len)) ==> ok
            &&& ok && !preset ==> (exact_size(req.body) matches Some(len)
                && hview(req2.headers@) == chunked_headers(
                    hview(req.headers@),
                    alg,
                    len as nat,
                    encoded_length_of(len as nat, seq![alg.trailer_size() as u64]),
                ) && fresh_chunked_body(req2.body, alg, len, req.body))
        },
    }
}

/// For an in-memory body, the checksum header the request ends up with is the
/// base64 digest of exactly the body's bytes, unless the caller had already
/// set that header, whose value is then kept.
pub proof fn lemma_buffered_checksum_header(
    req: HttpRequest,
    req2: HttpRequest,
    sig: Option<SigningOptions>,
    sig2: Option<SigningOptions>,
    alg: ChecksumAlgorithm,
)
    requires
        req.body is Bytes,
        added_checksum(req, req2, sig, sig2, alg, true),
    ensures
        lookup(hview(req2.headers@), alg.spec_header_name()) == match lookup(
            hview(req.headers@),
            alg.spec_header_name(),
        ) {
            Some(v) => Some(v),
            None => Some(header_value_of(alg, req.body->Bytes_0@)),
        },
        req2.body == req.body,
{
    if lookup(hview(req.headers@), alg.spec_header_name()) is None {
        lemma_push_absent_lookup(
            hview(req.headers@),
            alg.spec_header_name(),
            header_value_of(alg, req.body->Bytes_0@),
        );
    }
}

} // verus!
