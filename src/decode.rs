//! Reading the `aws-chunked` encoding back: the payload and the trailers.
use vstd::prelude::*;
use crate::algorithm::ChecksumAlgorithm;
use crate::checksum::header_value_of;
use crate::chunked::{
    chunk_frame, crlf, encoded, hex, hex_digit, trailer_line, trailer_lines,
};
use crate::headers::lookup;

verus! {

/// Whether `b` is a hexadecimal digit, in either case.
pub open spec fn is_hex_digit(b: u8) -> bool {
    (48 <= b && b <= 57) || (65 <= b && b <= 70) || (97 <= b && b <= 102)
}

/// The value of a hexadecimal digit.
pub open spec fn hex_digit_value(b: u8) -> nat {
    if b <= 57 {
        (b - 48) as nat
    } else if b <= 70 {
        (b - 55) as nat
    } else {
        (b - 87) as nat
    }
}

/// The number of hexadecimal digits `s` starts with.
pub open spec fn leading_hex(s: Seq<u8>) -> nat
    decreases s.len(),
{
    if s.len() > 0 && is_hex_digit(s[0]) {
        1 + leading_hex(s.drop_first())
    } else {
        0
    }
}

/// The number a string of hexadecimal digits denotes.
pub open spec fn hex_value(d: Seq<u8>) -> nat
    decreases d.len(),
{
    if d.len() == 0 {
        0
    } else {
        16 * hex_value(d.drop_last()) + hex_digit_value(d.last())
    }
}

/// The position of the first `x` in `s`, or its length.
pub open spec fn position(s: Seq<u8>, x: u8) -> nat
    decreases s.len(),
{
    if s.len() == 0 || s[0] == x {
        0
    } else {
        1 + position(s.drop_first(), x)
    }
}

/// Reads chunks up to and including the zero-length one: the joined payload
/// and what follows.
pub open spec fn decode_chunks(s: Seq<u8>) -> Option<(Seq<u8>, Seq<u8>)>
    decreases s.len(),
{
    let k = leading_hex(s) as int;
    let n = hex_value(s.take(k)) as int;
    if k == 0 || s.len() < k + 2 || s.subrange(k, k + 2) != crlf() {
        None
    } else if n == 0 {
        Some((Seq::empty(), s.skip(k + 2)))
    } else if s.len() < k + n + 4 || s.subrange(k + n + 2, k + n + 4) != crlf() {
        None
    } else {
        match decode_chunks(s.skip(k + n + 4)) {
            Some((p, rest)) => Some((s.subrange(k + 2, k + n + 2) + p, rest)),
            None => None,
        }
    }
}

/// Reads trailer lines `<name>:<value>\r\n` up to the closing `\r\n`.
pub open spec fn decode_trailers(s: Seq<u8>) -> Option<Seq<(Seq<u8>, Seq<u8>)>>
    decreases s.len(),
{
    if s == crlf() {
        Some(Seq::empty())
    } else {
        let e = position(s, 13) as int;
        let line = s.take(e);
        let c = position(line, 58) as int;
        if s.len() < e + 2 || s[e + 1] != 10 || c == line.len() {
            None
        } else {
            match decode_trailers(s.skip(e + 2)) {
                Some(ts) => Some(seq![(line.take(c), line.skip(c + 1))] + ts),
                None => None,
            }
        }
    }
}

/// The payload and trailers of an `aws-chunked` encoding, if it is one.
pub open spec fn decode(s: Seq<u8>) -> Option<(Seq<u8>, Seq<(Seq<u8>, Seq<u8>)>)> {
    match decode_chunks(s) {
        Some((p, rest)) => match decode_trailers(rest) {
            Some(ts) => Some((p, ts)),
            None => None,
        },
        None => None,
    }
}

/// Trailers that can be written as lines: no `:` in a name, no `\r` anywhere.
pub open spec fn trailers_well_formed(ts: Seq<(Seq<u8>, Seq<u8>)>) -> bool {
    forall|i: int|
        0 <= i < ts.len() ==> !(#[trigger] ts[i]).0.contains(58) && !ts[i].0.contains(13)
            && !ts[i].1.contains(13)
}

proof fn lemma_trailer_lines_front(ts: Seq<(Seq<u8>, Seq<u8>)>)
    requires
        ts.len() > 0,
    ensures
        trailer_lines(ts) == trailer_line(ts[0]) + trailer_lines(ts.drop_first()),
    decreases ts.len(),
{
    if ts.len() == 1 {
        assert(ts.drop_last() =~= Seq::<(Seq<u8>, Seq<u8>)>::empty());
        assert(ts.drop_first() =~= Seq::<(Seq<u8>, Seq<u8>)>::empty());
        assert(trailer_lines(ts) =~= trailer_line(ts[0]) + trailer_lines(ts.drop_first()));
    } else {
        lemma_trailer_lines_front(ts.drop_last());
        assert(ts.drop_last().drop_first() =~= ts.drop_first().drop_last());
        assert(ts.drop_first().last() == ts.last());
        assert(trailer_lines(ts) =~= trailer_line(ts[0]) + trailer_lines(ts.drop_first()));
    }
}

proof fn lemma_hex_round_trip(n: nat)
    ensures
        hex(n).len() >= 1,
        forall|i: int| 0 <= i < hex(n).len() ==> is_hex_digit(#[trigger] hex(n)[i]),
        hex_value(hex(n)) == n,
    decreases n,
{
    assert(hex_value(Seq::<u8>::empty()) == 0);
    if n < 16 {
        assert(hex(n).drop_last() =~= Seq::<u8>::empty());
        assert(hex(n).last() == hex_digit(n));
        assert(hex_digit_value(hex_digit(n)) == n);
    } else {
        lemma_hex_round_trip(n / 16);
        assert(hex(n).drop_last() =~= hex(n / 16));
        assert(hex(n).last() == hex_digit(n % 16));
        assert(hex_digit_value(hex_digit(n % 16)) == n % 16);
        assert(16 * (n / 16) + n % 16 == n);
        let d = hex(n);
        assert forall|i: int| 0 <= i < d.len() implies is_hex_digit(#[trigger] d[i]) by {
            if i < d.len() - 1 {
                assert(d[i] == hex(n / 16)[i]);
            }
        }
    }
}

proof fn lemma_leading_hex(a: Seq<u8>, b: Seq<u8>)
    requires
        forall|i: int| 0 <= i < a.len() ==> is_hex_digit(#[trigger] a[i]),
        b.len() > 0,
        !is_hex_digit(b[0]),
    ensures
        leading_hex(a + b) == a.len(),
    decreases a.len(),
{
    if a.len() > 0 {
        assert((a + b).drop_first() =~= a.drop_first() + b);
        assert forall|i: int| 0 <= i < a.drop_first().len() implies is_hex_digit(
            #[trigger] a.drop_first()[i],
        ) by {
            assert(a.drop_first()[i] == a[i + 1]);
        }
        lemma_leading_hex(a.drop_first(), b);
    } else {
        assert(a + b =~= b);
    }
}

proof fn lemma_position(a: Seq<u8>, b: Seq<u8>, x: u8)
    requires
        !a.contains(x),
        b.len() > 0,
        b[0] == x,
    ensures
        position(a + b, x) == a.len(),
    decreases a.len(),
{
    if a.len() > 0 {
        assert((a + b).drop_first() =~= a.drop_first() + b);
        assert((a + b)[0] == a[0]);
        assert(!a.drop_first().contains(x)) by {
            if a.drop_first().contains(x) {
                let j = choose|j: int| 0 <= j < a.drop_first().len() && a.drop_first()[j] == x;
                assert(a[j + 1] == x);
            }
        }
        lemma_position(a.drop_first(), b, x);
    } else {
        assert(a + b =~= b);
    }
}

proof fn lemma_decode_chunk(c: Seq<u8>, rest: Seq<u8>)
    requires
        c.len() > 0,
    ensures
        decode_chunks(chunk_frame(c) + rest) == match decode_chunks(rest) {
            Some((p, r)) => Some((c + p, r)),
            None => None,
        },
{
    let n = c.len() as int;
    let h = hex(c.len());
    lemma_hex_round_trip(c.len());
    let s = chunk_frame(c) + rest;
    assert(s =~= h + (crlf() + c + crlf() + rest));
    lemma_leading_hex(h, crlf() + c + crlf() + rest);
    let k = h.len() as int;
    assert(s.take(k) =~= h);
    assert(s.subrange(k, k + 2) =~= crlf());
    assert(s.subrange(k + n + 2, k + n + 4) =~= crlf());
    assert(s.skip(k + n + 4) =~= rest);
    assert(s.subrange(k + 2, k + n + 2) =~= c);
}

proof fn lemma_decode_terminator(t: Seq<u8>)
    ensures
        decode_chunks(seq![48u8] + crlf() + t) == Some((Seq::<u8>::empty(), t)),
{
    let s = seq![48u8] + crlf() + t;
    assert(s =~= seq![48u8] + (crlf() + t));
    lemma_leading_hex(seq![48u8], crlf() + t);
    assert(s.take(1) =~= seq![48u8]);
    assert(seq![48u8].drop_last() =~= Seq::<u8>::empty());
    assert(hex_value(Seq::<u8>::empty()) == 0);
    assert(seq![48u8].last() == 48u8);
    assert(hex_value(seq![48u8]) == 0);
    assert(s.subrange(1, 3) =~= crlf());
    assert(s.skip(3) =~= t);
}

proof fn lemma_decode_payload(p: Seq<u8>, t: Seq<u8>)
    ensures
        decode_chunks(chunk_frame(p) + (seq![48u8] + crlf() + t)) == Some((p, t)),
{
    let tail = seq![48u8] + crlf() + t;
    lemma_decode_terminator(t);
    if p.len() == 0 {
        assert(chunk_frame(p) + tail =~= tail);
        assert(p =~= Seq::<u8>::empty());
    } else {
        lemma_decode_chunk(p, tail);
        assert(p + Seq::<u8>::empty() =~= p);
    }
}

proof fn lemma_decode_trailers(ts: Seq<(Seq<u8>, Seq<u8>)>)
    requires
        trailers_well_formed(ts),
    ensures
        decode_trailers(trailer_lines(ts) + crlf()) == Some(ts),
    decreases ts.len(),
{
    let s = trailer_lines(ts) + crlf();
    if ts.len() == 0 {
        assert(s =~= crlf());
    } else {
        lemma_trailer_lines_front(ts);
        let t = ts[0];
        let rest = ts.drop_first();
        assert(trailers_well_formed(rest)) by {
            assert forall|i: int| 0 <= i < rest.len() implies !(#[trigger] rest[i]).0.contains(58)
                && !rest[i].0.contains(13) && !rest[i].1.contains(13) by {
                assert(rest[i] == ts[i + 1]);
            }
        }
        lemma_decode_trailers(rest);
        let line = t.0 + seq![58u8] + t.1;
        assert(s =~= line + (crlf() + (trailer_lines(rest) + crlf())));
        assert(!t.0.contains(13) && !t.0.contains(58) && !t.1.contains(13));
        assert(!line.contains(13)) by {
            if line.contains(13) {
                let j = choose|j: int| 0 <= j < line.len() && line[j] == 13;
                if j < t.0.len() {
                    assert(t.0[j] == 13);
                } else if j > t.0.len() {
                    assert(t.1[j - t.0.len() - 1] == 13);
                }
            }
        }
        lemma_position(line, crlf() + (trailer_lines(rest) + crlf()), 13);
        let e = line.len() as int;
        assert(s.take(e) =~= line);
        assert(line =~= t.0 + (seq![58u8] + t.1));
        lemma_position(t.0, seq![58u8] + t.1, 58);
        assert(line.take(t.0.len() as int) =~= t.0);
        assert(line.skip(t.0.len() as int + 1) =~= t.1);
        assert(s.skip(e + 2) =~= trailer_lines(rest) + crlf());
        assert(s != crlf()) by {
            assert(s.len() > 2);
        }
        assert(seq![(t.0, t.1)] + rest =~= ts);
    }
}

/// De-framing an encoded body gives back exactly the bytes it was made of,
/// and the trailers in order. (What a body yields depends only on the joined
/// bytes of its inner chunks, so this holds however they were split.)
pub proof fn lemma_round_trip(payload: Seq<u8>, ts: Seq<(Seq<u8>, Seq<u8>)>)
    requires
        trailers_well_formed(ts),
    ensures
        decode(encoded(payload, ts)) == Some((payload, ts)),
{
    let t = trailer_lines(ts) + crlf();
    assert(encoded(payload, ts) =~= chunk_frame(payload) + (seq![48u8] + crlf() + t));
    lemma_decode_payload(payload, t);
    lemma_decode_trailers(ts);
}

/// A streamed body's checksum trailer verifies: de-chunking what the body
/// yielded gives back the original bytes, and the trailer holds the same
/// digest that a checksum computed over those bytes on their own gives.
pub proof fn lemma_streamed_trailer_verifies(
    payload: Seq<u8>,
    alg: ChecksumAlgorithm,
    ts: Seq<(Seq<u8>, Seq<u8>)>,
)
    requires
        ts == seq![(alg.spec_header_name(), header_value_of(alg, payload))],
        trailers_well_formed(ts),
    ensures
        decode(encoded(payload, ts)) matches Some((p, found)) && p == payload && lookup(
            found,
            alg.spec_header_name(),
        ) == Some(header_value_of(alg, p)),
{
    lemma_round_trip(payload, ts);
    crate::headers::lemma_push_absent_lookup(
        Seq::empty(),
        alg.spec_header_name(),
        header_value_of(alg, payload),
    );
    assert(Seq::<(Seq<u8>, Seq<u8>)>::empty().push(ts[0]) =~= ts);
}

} // verus!
