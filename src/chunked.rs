//! The `aws-chunked` content encoding: length-prefixed chunks followed by
//! trailer lines, with the total encoded length known before streaming.
use vstd::prelude::*;
use crate::algorithm::ChecksumAlgorithm;
use crate::body::{ChecksumBody, Pull};
use crate::checksum::header_value_of;
use crate::decode::trailers_well_formed;
use crate::error::ChunkedError;
use crate::headers::{hview, HeaderList};

verus! {

/// `\r\n`.
pub open spec fn crlf() -> Seq<u8> {
    seq![13u8, 10]
}

/// The upper-case hexadecimal digit for `d < 16`.
pub open spec fn hex_digit(d: nat) -> u8 {
    if d < 10 {
        (48 + d) as u8
    } else {
        (55 + d) as u8
    }
}

/// `n` in upper-case hexadecimal, without leading zeros.
pub open spec fn hex(n: nat) -> Seq<u8>
    decreases n,
{
    if n < 16 {
        seq![hex_digit(n)]
    } else {
        hex(n / 16).push(hex_digit(n % 16))
    }
}

/// The number of hexadecimal digits of `n`.
pub open spec fn hex_len(n: nat) -> nat
    decreases n,
{
    if n < 16 {
        1
    } else {
        hex_len(n / 16) + 1
    }
}

/// The encoding of a payload as one chunk: `<hex length>\r\n<bytes>\r\n`;
/// an empty payload is encoded as nothing, since a zero length marks the end.
pub open spec fn chunk_frame(c: Seq<u8>) -> Seq<u8> {
    if c.len() == 0 {
        Seq::empty()
    } else {
        hex(c.len()) + crlf() + c + crlf()
    }
}

/// The bytes of a sequence of chunks, joined.
pub open spec fn joined(cs: Seq<Seq<u8>>) -> Seq<u8>
    decreases cs.len(),
{
    if cs.len() == 0 {
        Seq::empty()
    } else {
        joined(cs.drop_last()) + cs.last()
    }
}

/// One trailer line: `<name>:<value>\r\n`.
pub open spec fn trailer_line(t: (Seq<u8>, Seq<u8>)) -> Seq<u8> {
    t.0 + seq![58u8] + t.1 + crlf()
}

/// The trailer lines, in order.
pub open spec fn trailer_lines(ts: Seq<(Seq<u8>, Seq<u8>)>) -> Seq<u8>
    decreases ts.len(),
{
    if ts.len() == 0 {
        Seq::empty()
    } else {
        trailer_lines(ts.drop_last()) + trailer_line(ts.last())
    }
}

/// What follows the last chunk: `0\r\n`, the trailer lines, and `\r\n`.
pub open spec fn end_frame(ts: Seq<(Seq<u8>, Seq<u8>)>) -> Seq<u8> {
    seq![48u8] + crlf() + trailer_lines(ts) + crlf()
}

/// The whole encoding of a body whose bytes are `payload`, with trailers `ts`.
pub open spec fn encoded(payload: Seq<u8>, ts: Seq<(Seq<u8>, Seq<u8>)>) -> Seq<u8> {
    chunk_frame(payload) + end_frame(ts)
}

/// What a body declaring `stream_length` bytes has yielded after the inner
/// chunks `cs`: the chunk size line (once data has arrived), then the bytes.
pub open spec fn streamed_prefix(stream_length: u64, cs: Seq<Seq<u8>>) -> Seq<u8> {
    if stream_length == 0 || cs.len() == 0 {
        joined(cs)
    } else {
        hex(stream_length as nat) + crlf() + joined(cs)
    }
}

/// The sum of the trailer lengths, each with its line ending.
pub open spec fn trailers_total(lens: Seq<u64>) -> nat
    decreases lens.len(),
{
    if lens.len() == 0 {
        0
    } else {
        trailers_total(lens.drop_last()) + lens.last() as nat + 2
    }
}

/// The encoded length of a body of `stream_length` bytes sent as one chunk,
/// with trailers of the given rendered lengths.
pub open spec fn encoded_length_of(stream_length: nat, trailer_lengths: Seq<u64>) -> nat {
    (if stream_length == 0 {
        0
    } else {
        hex_len(stream_length) + 2 + stream_length + 2
    }) + 3 + trailers_total(trailer_lengths) + 2
}

/// What an `aws-chunked` body needs to know to declare its length ahead of time.
#[derive(Debug)]
pub struct AwsChunkedBodyOptions {
    /// The length of the body before encoding.
    pub stream_length: u64,
    /// The rendered length of each trailer, `<name>:<value>`, without its line ending.
    pub trailer_lengths: Vec<u64>,
}

impl AwsChunkedBodyOptions {
    pub fn new(stream_length: u64, trailer_lengths: Vec<u64>) -> (r: Self)
        ensures
            r.stream_length == stream_length,
            r.trailer_lengths@ == trailer_lengths@,
    {
        AwsChunkedBodyOptions { stream_length, trailer_lengths }
    }

    /// The total encoded length, when it fits in a `u64`.
    pub fn encoded_length(&self) -> (r: Option<u64>)
        ensures
            encoded_length_of(self.stream_length as nat, self.trailer_lengths@) <= u64::MAX
                ==> r == Some(encoded_length_of(self.stream_length as nat, self.trailer_lengths@) as u64),
            encoded_length_of(self.stream_length as nat, self.trailer_lengths@) > u64::MAX
                ==> r is None,
    {
        let ghost lens = self.trailer_lengths@;
        let mut total: u64 = 0;
        if self.stream_length != 0 {
            let h = hex_digit_count(self.stream_length);
            match h.checked_add(4) {
                Some(x) => total = x,
                None => return None,
            }
            match total.checked_add(self.stream_length) {
                Some(x) => total = x,
                None => return None,
            }
        }
        match total.checked_add(5) {
            Some(x) => total = x,
            None => return None,
        }
        let ghost base = total as nat;
        let mut i: usize = 0;
        while i < self.trailer_lengths.len()
            invariant
                0 <= i <= lens.len(),
                lens == self.trailer_lengths@,
                total == base + trailers_total(lens.take(i as int)),
                base + 0 == encoded_length_of(self.stream_length as nat, Seq::empty()),
            decreases lens.len() - i,
        {
            assert(lens.take(i + 1).drop_last() =~= lens.take(i as int));
            match total.checked_add(self.trailer_lengths[i]) {
                Some(x) => total = x,
                None => {
                    proof {
                        lemma_trailers_total_mono(lens, i + 1);
                    }
                    return None;
                },
            }
            match total.checked_add(2) {
                Some(x) => total = x,
                None => {
                    proof {
                        lemma_trailers_total_mono(lens, i + 1);
                    }
                    return None;
                },
            }
            i = i + 1;
        }
        assert(lens.take(lens.len() as int) =~= lens);
        Some(total)
    }
}

/// A prefix's trailer total never exceeds the whole's.
proof fn lemma_trailers_total_mono(lens: Seq<u64>, n: int)
    requires
        0 <= n <= lens.len(),
    ensures
        trailers_total(lens.take(n)) <= trailers_total(lens),
    decreases lens.len() - n,
{
    if n < lens.len() {
        assert(lens.take(n + 1).drop_last() =~= lens.take(n));
        lemma_trailers_total_mono(lens, n + 1);
    } else {
        assert(lens.take(n) =~= lens);
    }
}

/// The number of hexadecimal digits of `n`.
fn hex_digit_count(n: u64) -> (r: u64)
    ensures
        r == hex_len(n as nat),
        r <= 16,
{
    let mut m: u64 = n;
    let mut count: u64 = 1;
    assert(pow16(0) == 1);
    assert(((count - 1) as nat) == 0nat);
    assert(m as nat * pow16((count - 1) as nat) == n as nat);
    while m >= 16
        invariant
            1 <= count <= 16,
            hex_len(n as nat) == hex_len(m as nat) + count - 1,
            m as nat * pow16((count - 1) as nat) <= n,
        decreases m,
    {
        assert(pow16(count as nat) == 16 * pow16((count - 1) as nat));
        if count >= 16 {
            proof {
                lemma_pow16_15();
                assert(pow16((count - 1) as nat) >= pow16(15));
                assert(m as nat * pow16((count - 1) as nat) >= 16 * pow16(15)) by (nonlinear_arith)
                    requires m >= 16, pow16((count - 1) as nat) >= pow16(15);
            }
            assert(false);
        }
        assert((m / 16) as nat * pow16(count as nat) <= m as nat * pow16((count - 1) as nat)) by (nonlinear_arith)
            requires pow16(count as nat) == 16 * pow16((count - 1) as nat);
        m = m / 16;
        count = count + 1;
    }
    count
}

/// Sixteen to the power `k`.
pub open spec fn pow16(k: nat) -> nat
    decreases k,
{
    if k == 0 {
        1
    } else {
        16 * pow16((k - 1) as nat)
    }
}

proof fn lemma_pow16_15()
    ensures
        pow16(15) == 0x1000000000000000nat,
        forall|k: nat| k >= 15 ==> #[trigger] pow16(k) >= pow16(15),
{
    reveal_with_fuel(pow16, 16);
    assert forall|k: nat| k >= 15 implies #[trigger] pow16(k) >= pow16(15) by {
        lemma_pow16_mono(15, k);
    }
}

proof fn lemma_pow16_mono(a: nat, b: nat)
    requires
        a <= b,
    ensures
        pow16(a) <= pow16(b),
    decreases b - a,
{
    if a < b {
        lemma_pow16_mono(a, (b - 1) as nat);
    }
}

/// `hex` has as many digits as `hex_len` counts.
pub proof fn lemma_hex_len(n: nat)
    ensures
        hex(n).len() == hex_len(n),
    decreases n,
{
    if n >= 16 {
        lemma_hex_len(n / 16);
    }
}

/// The framed trailer lines take the declared lengths, each with its line ending.
proof fn lemma_trailer_lines_len(ts: Seq<(Seq<u8>, Seq<u8>)>, lens: Seq<u64>)
    requires
        ts.len() == lens.len(),
        forall|i: int| 0 <= i < ts.len() ==> #[trigger] trailer_line(ts[i]).len() == lens[i] + 2,
    ensures
        trailer_lines(ts).len() == trailers_total(lens),
    decreases ts.len(),
{
    if ts.len() > 0 {
        let (a, b) = (ts.drop_last(), lens.drop_last());
        assert forall|i: int| 0 <= i < a.len() implies #[trigger] trailer_line(a[i]).len() == b[i] + 2 by {
            assert(trailer_line(ts[i]).len() == lens[i] + 2);
        }
        lemma_trailer_lines_len(a, b);
        assert(trailer_line(ts[ts.len() - 1]).len() == lens[ts.len() - 1] + 2);
    }
}

/// The length an `aws-chunked` body declares ahead of streaming is the number
/// of bytes its encoding takes, whatever the payload, when each trailer line
/// has its declared length.
pub proof fn lemma_declared_length_is_drained_length(
    payload: Seq<u8>,
    ts: Seq<(Seq<u8>, Seq<u8>)>,
    lens: Seq<u64>,
)
    requires
        ts.len() == lens.len(),
        forall|i: int| 0 <= i < ts.len() ==> #[trigger] trailer_line(ts[i]).len() == lens[i] + 2,
    ensures
        encoded(payload, ts).len() == encoded_length_of(payload.len(), lens),
{
    lemma_trailer_lines_len(ts, lens);
    lemma_hex_len(payload.len());
}

/// Joining one more chunk appends its bytes.
pub proof fn lemma_joined_push(cs: Seq<Seq<u8>>, c: Seq<u8>)
    ensures
        joined(cs.push(c)) == joined(cs) + c,
{
    assert(cs.push(c).drop_last() =~= cs);
}

/// Appends `s` to `out`.
fn push_all(out: &mut Vec<u8>, s: &[u8])
    ensures
        final(out)@ == old(out)@ + s@,
{
    let mut i: usize = 0;
    while i < s.len()
        invariant
            0 <= i <= s@.len(),
            out@ == old(out)@ + s@.take(i as int),
        decreases s@.len() - i,
    {
        out.push(s[i]);
        assert(s@.take(i + 1) =~= s@.take(i as int).push(s@[i as int]));
        i = i + 1;
    }
    assert(s@.take(s@.len() as int) =~= s@);
}

/// Appends `\r\n` to `out`.
fn push_crlf(out: &mut Vec<u8>)
    ensures
        final(out)@ == old(out)@ + crlf(),
{
    out.push(13);
    out.push(10);
    assert(out@ =~= old(out)@ + crlf());
}

/// `n` in upper-case hexadecimal, without leading zeros.
fn hex_bytes(n: u64) -> (r: Vec<u8>)
    ensures
        r@ == hex(n as nat),
    decreases n,
{
    let d = n % 16;
    let digit: u8 = if d < 10 { 48 + d as u8 } else { 55 + d as u8 };
    if n < 16 {
        let r = vec![digit];
        assert(r@ =~= hex(n as nat));
        r
    } else {
        let mut r = hex_bytes(n / 16);
        r.push(digit);
        r
    }
}

/// The bytes after the last chunk: `0\r\n`, the trailer lines, `\r\n`.
fn frame_end(ts: &HeaderList) -> (r: Vec<u8>)
    ensures
        r@ == end_frame(hview(ts@)),
{
    let mut r: Vec<u8> = vec![48];
    push_crlf(&mut r);
    let ghost start = r@;
    let mut i: usize = 0;
    while i < ts.len()
        invariant
            0 <= i <= ts@.len(),
            start == seq![48u8] + crlf(),
            r@ == start + trailer_lines(hview(ts@.take(i as int))),
        decreases ts@.len() - i,
    {
        assert(hview(ts@.take(i + 1)).drop_last() =~= hview(ts@.take(i as int)));
        assert(hview(ts@.take(i + 1)).last() == (ts@[i as int].0@, ts@[i as int].1@));
        push_all(&mut r, ts[i].0.as_slice());
        r.push(58);
        push_all(&mut r, ts[i].1.as_slice());
        push_crlf(&mut r);
        assert(r@ =~= start + trailer_lines(hview(ts@.take(i + 1))));
        i = i + 1;
    }
    assert(ts@.take(ts@.len() as int) =~= ts@);
    push_crlf(&mut r);
    assert(r@ =~= end_frame(hview(ts@)));
    r
}

/// A body in the `aws-chunked` encoding: the bytes of a checksum-writing body
/// are sent as one chunk of the declared length, and its trailers follow.
pub struct AwsChunkedBody {
    body: ChecksumBody,
    options: AwsChunkedBodyOptions,
    started: bool,
    received: u64,
    finished: bool,
    chunks: Ghost<Seq<Seq<u8>>>,
    emitted: Ghost<Seq<u8>>,
    trailers: Ghost<Seq<(Seq<u8>, Seq<u8>)>>,
}

/// What a pull of `d` yields: the chunk size line before the first bytes of a
/// non-empty stream, then the bytes unchanged.
pub open spec fn pulled_output(stream_length: u64, first: bool, d: Seq<u8>) -> Seq<u8> {
    if stream_length != 0 && first {
        hex(stream_length as nat) + crlf() + d
    } else {
        d
    }
}

impl AwsChunkedBody {
    /// The checksum algorithm of the writing body inside.
    pub closed spec fn algorithm(&self) -> ChecksumAlgorithm {
        self.body.algorithm()
    }

    /// The inner chunks received so far.
    pub closed spec fn chunks(&self) -> Seq<Seq<u8>> {
        self.chunks@
    }

    /// Every byte this body has yielded so far.
    pub closed spec fn emitted(&self) -> Seq<u8> {
        self.emitted@
    }

    /// Whether the end of the encoding has been yielded.
    pub closed spec fn finished(&self) -> bool {
        self.finished
    }

    /// The trailers that were sent, once finished.
    pub closed spec fn trailers(&self) -> Seq<(Seq<u8>, Seq<u8>)> {
        self.trailers@
    }

    /// The declared length before encoding.
    pub closed spec fn stream_length(&self) -> u64 {
        self.options.stream_length
    }

    /// The declared trailer lengths.
    pub closed spec fn trailer_lengths(&self) -> Seq<u64> {
        self.options.trailer_lengths@
    }

    pub closed spec fn wf(&self) -> bool {
        &&& self.body.wf()
        &&& self.body.trailers_sent() == self.finished
        &&& self.body.consumed() == joined(self.chunks@)
        &&& self.started == (self.chunks@.len() > 0)
        &&& self.received == if joined(self.chunks@).len() < u64::MAX {
            joined(self.chunks@).len()
        } else {
            u64::MAX as nat
        }
        &&& encoded_length_of(self.options.stream_length as nat, self.options.trailer_lengths@)
            <= u64::MAX
        &&& if self.finished {
            &&& joined(self.chunks@).len() == self.options.stream_length
            &&& self.emitted@ == encoded(joined(self.chunks@), self.trailers@)
        } else {
            self.emitted@ == streamed_prefix(self.options.stream_length, self.chunks@)
        }
    }

    /// An `aws-chunked` body around a fresh writing body. Its encoded length
    /// must be declarable, that is, fit in a `u64`.
    pub fn new(body: ChecksumBody, options: AwsChunkedBodyOptions) -> (r: Self)
        requires
            body.wf(),
            !body.trailers_sent(),
            body.consumed() == Seq::<u8>::empty(),
            encoded_length_of(options.stream_length as nat, options.trailer_lengths@) <= u64::MAX,
        ensures
            r.wf(),
            !r.finished(),
            r.algorithm() == body.algorithm(),
            r.chunks() == Seq::<Seq<u8>>::empty(),
            r.emitted() == Seq::<u8>::empty(),
            r.stream_length() == options.stream_length,
            r.trailer_lengths() == options.trailer_lengths@,
    {
        let r = AwsChunkedBody {
            body,
            options,
            started: false,
            received: 0,
            finished: false,
            chunks: Ghost(Seq::empty()),
            emitted: Ghost(Seq::empty()),
            trailers: Ghost(Seq::empty()),
        };
        assert(joined(Seq::<Seq<u8>>::empty()) == Seq::<u8>::empty());
        r
    }

    /// The total encoded length, declared ahead of streaming.
    pub fn encoded_length(&self) -> (r: Option<u64>)
        ensures
            encoded_length_of(self.stream_length() as nat, self.trailer_lengths()) <= u64::MAX
                ==> r == Some(encoded_length_of(self.stream_length() as nat, self.trailer_lengths()) as u64),
            encoded_length_of(self.stream_length() as nat, self.trailer_lengths()) > u64::MAX
                ==> r is None,
    {
        self.options.encoded_length()
    }

    /// Handles one pull of the inner body before its end: a chunk is
    /// checksummed and yielded, after the chunk size line if it is the first;
    /// other outcomes pass through.
    pub fn poll_data<E>(&mut self, inner: Pull<E>) -> (r: Pull<E>)
        requires
            old(self).wf(),
            !old(self).finished(),
            !(inner is Done),
        ensures
            final(self).wf(),
            !final(self).finished(),
            final(self).algorithm() == old(self).algorithm(),
            final(self).stream_length() == old(self).stream_length(),
            final(self).trailer_lengths() == old(self).trailer_lengths(),
            final(self).emitted() == streamed_prefix(final(self).stream_length(), final(self).chunks()),
            match inner {
                Pull::Data(d) => final(self).chunks() == old(self).chunks().push(d@)
                    && (r matches Pull::Data(x) && x@ == pulled_output(
                        old(self).stream_length(),
                        old(self).chunks().len() == 0,
                        d@,
                    )) && final(self).emitted() == old(self).emitted() + pulled_output(
                        old(self).stream_length(),
                        old(self).chunks().len() == 0,
                        d@,
                    ),
                Pull::Pending => r is Pending && final(self).chunks() == old(self).chunks()
                    && final(self).emitted() == old(self).emitted(),
                Pull::Failed(e) => (r matches Pull::Failed(x) && x == e) && final(self).chunks()
                    == old(self).chunks() && final(self).emitted() == old(self).emitted(),
                Pull::Done => false,
            },
    {
        let ghost old_chunks = self.chunks@;
        let out = self.body.poll_data(inner);
        match out {
            Pull::Data(d) => {
                let len = d.len() as u64;
                proof {
                    lemma_joined_push(old_chunks, d@);
                }
                self.received = if u64::MAX - self.received <= len {
                    u64::MAX
                } else {
                    self.received + len
                };
                let first = !self.started;
                self.started = true;
                let framed = if self.options.stream_length != 0 && first {
                    let mut r = hex_bytes(self.options.stream_length);
                    push_crlf(&mut r);
                    push_all(&mut r, d.as_slice());
                    r
                } else {
                    d
                };
                proof {
                    self.chunks@ = old_chunks.push(d@);
                    self.emitted@ = self.emitted@ + pulled_output(self.options.stream_length, first, d@);
                    assert(self.emitted@ =~= streamed_prefix(self.options.stream_length, self.chunks@));
                }
                Pull::Data(framed)
            },
            Pull::Pending => Pull::Pending,
            Pull::Failed(e) => Pull::Failed(e),
            Pull::Done => Pull::Done,
        }
    }

    /// Once the inner body is exhausted: if it yielded exactly the declared
    /// length, yields the end of the chunk, `0\r\n`, the merged trailer lines
    /// and the final `\r\n`, which completes the encoding; otherwise reports
    /// the mismatch and changes nothing.
    pub fn finish(&mut self, inner_trailers: Option<HeaderList>) -> (r: Result<Vec<u8>, ChunkedError>)
        requires
            old(self).wf(),
            !old(self).finished(),
        ensures
            final(self).wf(),
            final(self).algorithm() == old(self).algorithm(),
            final(self).chunks() == old(self).chunks(),
            final(self).stream_length() == old(self).stream_length(),
            final(self).trailer_lengths() == old(self).trailer_lengths(),
            (r is Err) == (joined(old(self).chunks()).len() != old(self).stream_length()),
            r is Err ==> *final(self) == *old(self) && r == Err::<Vec<u8>, _>(
                ChunkedError::StreamLengthMismatch {
                    stream_length: old(self).stream_length(),
                    received: if joined(old(self).chunks()).len() < u64::MAX {
                        joined(old(self).chunks()).len() as u64
                    } else {
                        u64::MAX
                    },
                },
            ),
            r matches Ok(end) ==> {
                &&& final(self).finished()
                &&& final(self).trailers() == crate::body::merged_trailers(
                    match inner_trailers {
                        Some(t) => Some(hview(t@)),
                        None => None,
                    },
                    old(self).algorithm().spec_header_name(),
                    header_value_of(old(self).algorithm(), joined(old(self).chunks())),
                )
                &&& end@ == (if old(self).stream_length() == 0 {
                    Seq::<u8>::empty()
                } else {
                    crlf()
                }) + end_frame(final(self).trailers())
                &&& final(self).emitted() == old(self).emitted() + end@
                &&& final(self).emitted() == encoded(joined(final(self).chunks()), final(self).trailers())
                &&& inner_trailers is None ==> final(self).trailers() == seq![
                    (
                        old(self).algorithm().spec_header_name(),
                        header_value_of(old(self).algorithm(), joined(old(self).chunks())),
                    ),
                ] && trailers_well_formed(final(self).trailers())
                    && trailer_line(final(self).trailers()[0]).len() == old(self).algorithm().trailer_size() + 2
                &&& inner_trailers is None && old(self).trailer_lengths() == seq![
                    old(self).algorithm().trailer_size() as u64,
                ] ==> final(self).emitted().len() == encoded_length_of(
                    old(self).stream_length() as nat,
                    old(self).trailer_lengths(),
                )
            },
    {
        if self.received != self.options.stream_length {
            return Err(
                ChunkedError::StreamLengthMismatch {
                    stream_length: self.options.stream_length,
                    received: self.received,
                },
            );
        }
        let ghost no_inner = inner_trailers is None;
        let ts = self.body.poll_trailers(inner_trailers);
        let mut r: Vec<u8> = Vec::new();
        if self.options.stream_length != 0 {
            push_crlf(&mut r);
        }
        let end = frame_end(&ts);
        push_all(&mut r, end.as_slice());
        self.finished = true;
        proof {
            let p = joined(self.chunks@);
            self.trailers@ = hview(ts@);
            let old_emitted = self.emitted@;
            self.emitted@ = self.emitted@ + r@;
            if self.options.stream_length == 0 {
                assert(r@ =~= Seq::<u8>::empty() + end_frame(hview(ts@)));
                assert(self.emitted@ =~= encoded(p, hview(ts@)));
            } else {
                assert(r@ =~= crlf() + end_frame(hview(ts@)));
                assert(self.emitted@ =~= encoded(p, hview(ts@)));
            }
            if no_inner {
                let t = hview(ts@)[0];
                assert(trailer_line(t).len() == t.0.len() + 1 + t.1.len() + 2);
                self.body.algorithm().lemma_header_name_is_token();
                assert(hview(ts@) =~= seq![t]);
                if self.options.trailer_lengths@ == seq![self.body.algorithm().trailer_size() as u64] {
                    lemma_declared_length_is_drained_length(
                        p,
                        hview(ts@),
                        self.options.trailer_lengths@,
                    );
                }
            }
        }
        Ok(r)
    }
}

} // verus!
