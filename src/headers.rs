//! Header and trailer lists: ordered `(name, value)` pairs whose names compare
//! without regard to ASCII case.
use vstd::prelude::*;
use crate::algorithm::{bytes_eq_ignore_ascii_case, eq_ignore_ascii_case};

verus! {

/// An ordered list of header (or trailer) fields.
pub type HeaderList = Vec<(Vec<u8>, Vec<u8>)>;

/// The byte sequences of a header list.
pub open spec fn hview(h: Seq<(Vec<u8>, Vec<u8>)>) -> Seq<(Seq<u8>, Seq<u8>)> {
    h.map_values(|p: (Vec<u8>, Vec<u8>)| (p.0@, p.1@))
}

/// The value of the first field called `name`, if any.
pub open spec fn lookup(h: Seq<(Seq<u8>, Seq<u8>)>, name: Seq<u8>) -> Option<Seq<u8>>
    decreases h.len(),
{
    if h.len() == 0 {
        None
    } else {
        match lookup(h.drop_last(), name) {
            Some(v) => Some(v),
            None => if eq_ignore_ascii_case(h.last().0, name) {
                Some(h.last().1)
            } else {
                None
            },
        }
    }
}

/// The list without any field called `name`, order kept.
pub open spec fn without(h: Seq<(Seq<u8>, Seq<u8>)>, name: Seq<u8>) -> Seq<(Seq<u8>, Seq<u8>)>
    decreases h.len(),
{
    if h.len() == 0 {
        h
    } else if eq_ignore_ascii_case(h.last().0, name) {
        without(h.drop_last(), name)
    } else {
        without(h.drop_last(), name).push(h.last())
    }
}

/// The list with `name` set to `value` alone, replacing earlier fields of that name.
pub open spec fn insert(h: Seq<(Seq<u8>, Seq<u8>)>, name: Seq<u8>, value: Seq<u8>) -> Seq<
    (Seq<u8>, Seq<u8>),
> {
    without(h, name).push((name, value))
}

/// Appending a field under a name that is absent makes it the value found.
pub proof fn lemma_push_absent_lookup(h: Seq<(Seq<u8>, Seq<u8>)>, name: Seq<u8>, value: Seq<u8>)
    requires
        lookup(h, name) is None,
    ensures
        lookup(h.push((name, value)), name) == Some(value),
{
    assert(h.push((name, value)).drop_last() =~= h);
    assert(eq_ignore_ascii_case(name, name));
}

/// The value of the first field called `name`, if any.
pub fn get_header(h: &HeaderList, name: &[u8]) -> (r: Option<Vec<u8>>)
    ensures
        match lookup(hview(h@), name@) {
            Some(v) => r matches Some(x) && x@ == v,
            None => r is None,
        },
{
    let mut found: Option<Vec<u8>> = None;
    let mut i: usize = 0;
    while i < h.len()
        invariant
            0 <= i <= h@.len(),
            match lookup(hview(h@.take(i as int)), name@) {
                Some(v) => found matches Some(x) && x@ == v,
                None => found is None,
            },
        decreases h@.len() - i,
    {
        assert(hview(h@.take(i + 1)).drop_last() =~= hview(h@.take(i as int)));
        if found.is_none() && bytes_eq_ignore_ascii_case(h[i].0.as_slice(), name) {
            found = Some(h[i].1.clone());
        }
        i = i + 1;
    }
    assert(h@.take(h@.len() as int) =~= h@);
    found
}

/// Whether a field called `name` is present.
pub fn contains_header(h: &HeaderList, name: &[u8]) -> (r: bool)
    ensures
        r == (lookup(hview(h@), name@) is Some),
{
    let mut i: usize = 0;
    while i < h.len()
        invariant
            0 <= i <= h@.len(),
            lookup(hview(h@.take(i as int)), name@) is None,
        decreases h@.len() - i,
    {
        assert(hview(h@.take(i + 1)).drop_last() =~= hview(h@.take(i as int)));
        if bytes_eq_ignore_ascii_case(h[i].0.as_slice(), name) {
            assert(h@.take(i + 1).last() == h@[i as int]);
            proof {
                lemma_lookup_prefix(hview(h@), name@, i + 1);
            }
            return true;
        }
        i = i + 1;
    }
    assert(h@.take(h@.len() as int) =~= h@);
    false
}

/// A field found in a prefix of the list is found in the whole list.
proof fn lemma_lookup_prefix(h: Seq<(Seq<u8>, Seq<u8>)>, name: Seq<u8>, n: int)
    requires
        0 <= n <= h.len(),
        lookup(h.take(n), name) is Some,
    ensures
        lookup(h, name) == lookup(h.take(n), name),
    decreases h.len() - n,
{
    if n < h.len() {
        assert(h.take(n + 1).drop_last() =~= h.take(n));
        lemma_lookup_prefix(h, name, n + 1);
    } else {
        assert(h.take(n) =~= h);
    }
}

/// Sets `name` to `value`, removing every earlier field of that name.
pub fn set_header(h: &mut HeaderList, name: Vec<u8>, value: Vec<u8>)
    ensures
        hview(final(h)@) == insert(hview(old(h)@), name@, value@),
{
    let mut kept: HeaderList = Vec::new();
    let mut i: usize = 0;
    while i < h.len()
        invariant
            0 <= i <= h@.len(),
            hview(kept@) == without(hview(h@.take(i as int)), name@),
        decreases h@.len() - i,
    {
        assert(hview(h@.take(i + 1)).drop_last() =~= hview(h@.take(i as int)));
        if !bytes_eq_ignore_ascii_case(h[i].0.as_slice(), name.as_slice()) {
            let field = (h[i].0.clone(), h[i].1.clone());
            kept.push(field);
            assert(hview(kept@) =~= without(hview(h@.take(i as int)), name@).push(
                hview(h@.take(i + 1)).last(),
            ));
        }
        i = i + 1;
    }
    assert(h@.take(h@.len() as int) =~= h@);
    kept.push((name, value));
    assert(hview(kept@) =~= insert(hview(h@), name@, value@));
    *h = kept;
}

} // verus!
