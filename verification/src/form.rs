//! The `application/x-www-form-urlencoded` reading of a query string: split
//! on `&`, split each segment at its first `=`, decode key and value.

use vstd::prelude::*;

verus! {

/// What form-urlencoded decoding makes of one key or value segment: each `+`
/// becomes a space, each percent-escape becomes the byte it names (a
/// malformed escape passes through literally), and the bytes are then read
/// as UTF-8, invalid sequences degrading to replacement characters. The
/// character-level outcome is left abstract; a segment holding neither `%`
/// nor `+` never reaches it, since such a segment decodes to itself.
pub uninterp spec fn form_decode_of(s: Seq<char>) -> Seq<char>;

/// The decoded form of one key or value segment. A segment holding neither
/// `%` nor `+` needs no decoding and stays as it is.
pub open spec fn decoded(s: Seq<char>) -> Seq<char> {
    if s.contains('%') || s.contains('+') {
        form_decode_of(s)
    } else {
        s
    }
}

/// The segments of `q` between `&` separators, in order. There is always at
/// least one segment; splitting the empty sequence gives one empty segment.
pub open spec fn amp_segments(q: Seq<char>) -> Seq<Seq<char>>
    decreases q.len(),
{
    if q.len() == 0 {
        seq![Seq::<char>::empty()]
    } else if q[0] == '&' {
        seq![Seq::<char>::empty()] + amp_segments(q.skip(1))
    } else {
        let rest = amp_segments(q.skip(1));
        seq![seq![q[0]] + rest[0]] + rest.skip(1)
    }
}

/// The segments of `segs` that are non-empty, in order.
pub open spec fn drop_empty(segs: Seq<Seq<char>>) -> Seq<Seq<char>> {
    segs.filter(|seg: Seq<char>| seg.len() != 0)
}

/// One segment split at its first `=`: what precedes it is the raw key,
/// what follows it is the raw value. A segment without `=` is all key, with
/// an empty value.
pub open spec fn split_at_eq(seg: Seq<char>) -> (Seq<char>, Seq<char>)
    decreases seg.len(),
{
    if seg.len() == 0 {
        (Seq::<char>::empty(), Seq::<char>::empty())
    } else if seg[0] == '=' {
        (Seq::<char>::empty(), seg.skip(1))
    } else {
        let rest = split_at_eq(seg.skip(1));
        (seq![seg[0]] + rest.0, rest.1)
    }
}

/// The pair one segment decodes to: its halves around its first `=`, each
/// decoded.
pub open spec fn segment_pair(seg: Seq<char>) -> (Seq<char>, Seq<char>) {
    (decoded(split_at_eq(seg).0), decoded(split_at_eq(seg).1))
}

/// The (key, value) pairs that form-urlencoded decoding reads out of the
/// query string `q`: the segments between `&`, empty ones dropped, each
/// remaining one split at its first `=` and both halves decoded. Duplicate
/// keys and encounter order are preserved.
pub open spec fn form_pairs(q: Seq<char>) -> Seq<(Seq<char>, Seq<char>)> {
    drop_empty(amp_segments(q)).map_values(|seg: Seq<char>| segment_pair(seg))
}

/// Relies on `url::form_urlencoded::parse`: it splits its input on `&`,
/// drops empty segments, splits each remaining segment at its first `=`,
/// form-decodes key and value, and yields the pairs in encounter order; a
/// segment free of `%` and `+` comes back unchanged.
#[verifier::external_body]
fn parse_raw(q: &str) -> (r: Vec<(String, String)>)
    ensures
        r.deep_view().len() == drop_empty(amp_segments(q@)).len(),
        (forall|i: int|
            0 <= i < r.deep_view().len() ==> (#[trigger] r.deep_view()[i]) == ({
                let seg = drop_empty(amp_segments(q@))[i];
                let key = split_at_eq(seg).0;
                let val = split_at_eq(seg).1;
                (
                    if key.contains('%') || key.contains('+') {
                        form_decode_of(key)
                    } else {
                        key
                    },
                    if val.contains('%') || val.contains('+') {
                        form_decode_of(val)
                    } else {
                        val
                    },
                )
            })),
{
    url::form_urlencoded::parse(q.as_bytes()).into_owned().collect()
}

/// Decode `q` as `application/x-www-form-urlencoded` (key, value) pairs.
pub(crate) fn parse_form_urlencoded(q: &str) -> (r: Vec<(String, String)>)
    ensures
        r.deep_view() == form_pairs(q@),
{
    let r = parse_raw(q);
    proof {
        assert forall|i: int| 0 <= i < r.deep_view().len() implies r.deep_view()[i] == form_pairs(
            q@,
        )[i] by {
            assert(form_pairs(q@)[i] == segment_pair(drop_empty(amp_segments(q@))[i]));
        }
        assert(r.deep_view() =~= form_pairs(q@));
    }
    r
}

} // verus!
