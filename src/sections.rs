//! Splitting a node's text into plain and link sections.
//!
//! A text is shown as a run of sections, each flagged as a link or not, and
//! always ends with one more section that holds the blinking cursor (a space
//! while the cursor is hidden). Positions are byte offsets into the text's
//! UTF-8 encoding, and sections are described by their encodings.

use vstd::prelude::*;
use vstd::string::StringSliceAdditionalSpecFns;
use vstd::utf8::{
    encode_utf8, encode_utf8_valid_utf8, is_char_boundary,
    is_char_boundary_iff_not_is_continuation_byte, is_char_boundary_start_end_of_seq,
    valid_utf8, valid_utf8_split,
};

verus! {

/// The byte ranges `(start, end)` of the URLs that the link finder recognises
/// in `text`.
pub uninterp spec fn url_ranges(text: Seq<char>) -> Seq<(usize, usize)>;

/// Ranges that are non-empty, lie inside `bytes` with both ends on character
/// boundaries, and come in order without overlapping.
pub open spec fn ranges_ordered(ranges: Seq<(usize, usize)>, bytes: Seq<u8>) -> bool {
    &&& forall|i: int|
        0 <= i < ranges.len() ==> #[trigger] ranges[i].0 < ranges[i].1 <= bytes.len()
            && is_char_boundary(bytes, ranges[i].0 as int) && is_char_boundary(
            bytes,
            ranges[i].1 as int,
        )
    &&& forall|i: int| 0 < i < ranges.len() ==> ranges[i - 1].1 <= #[trigger] ranges[i].0
}

/// Relies on linkify's `LinkFinder::links`, restricted to URLs: the byte
/// ranges of the links that it finds in `text`, in order. Its source yields
/// each link with its start before its end, both inside the text and on
/// character boundaries (the text is sliced there), and each link starting
/// where or after the previous one ended.
#[verifier::external_body]
fn find_url_ranges(text: &str) -> (r: Vec<(usize, usize)>)
    ensures
        r@ == url_ranges(text@),
        ranges_ordered(r@, text.spec_bytes()),
{
    let mut finder = linkify::LinkFinder::new();
    finder.kinds(&[linkify::LinkKind::Url]);
    finder.links(text).map(|l| (l.start(), l.end())).collect()
}

/// The section that holds the cursor, hidden.
pub open spec fn cursor_section() -> (Seq<u8>, bool) {
    (encode_utf8(seq![' ']), false)
}

/// The sections of `text` from the range at `k` on, where the bytes before
/// `from` have been placed already: the plain text up to each range (where
/// there is any), the range itself as a link, and the plain rest after the
/// last range (where there is any).
pub open spec fn pieces(text: Seq<u8>, ranges: Seq<(usize, usize)>, k: int, from: int) -> Seq<
    (Seq<u8>, bool),
>
    decreases ranges.len() - k,
{
    if k < 0 || k >= ranges.len() {
        if from < text.len() {
            seq![(text.subrange(from, text.len() as int), false)]
        } else {
            seq![]
        }
    } else {
        let (s, e) = ranges[k];
        let gap = if from < s {
            seq![(text.subrange(from, s as int), false)]
        } else {
            seq![]
        };
        gap + seq![(text.subrange(s as int, e as int), true)] + pieces(text, ranges, k + 1, e as int)
    }
}

/// The sections shown for `text` with the links at `ranges`: without links,
/// the whole text as one plain section; then the cursor.
pub open spec fn sections_of(text: Seq<u8>, ranges: Seq<(usize, usize)>) -> Seq<(Seq<u8>, bool)> {
    if ranges.len() == 0 {
        seq![(text, false), cursor_section()]
    } else {
        pieces(text, ranges, 0, 0).push(cursor_section())
    }
}

/// The sections held as a list of strings and a list of link flags.
pub open spec fn zipped(values: Seq<String>, links: Seq<bool>) -> Seq<(Seq<u8>, bool)> {
    Seq::new(values.len(), |i: int| (encode_utf8(values[i]@), links[i]))
}

/// The bytes `from..to` of `text`, as a string.
fn byte_slice(text: &str, from: usize, to: usize) -> (r: String)
    requires
        from <= to <= text.spec_bytes().len(),
        is_char_boundary(text.spec_bytes(), from as int),
        is_char_boundary(text.spec_bytes(), to as int),
    ensures
        encode_utf8(r@) == text.spec_bytes().subrange(from as int, to as int),
{
    let ghost bytes = text.spec_bytes();
    proof {
        encode_utf8_valid_utf8(text@);
    }
    let (head, _) = text.split_at(to);
    let ghost hb = head.spec_bytes();
    proof {
        valid_utf8_split(bytes, to as int);
        assert(hb =~= bytes.subrange(0, to as int));
        if from == to || from == 0 {
            is_char_boundary_start_end_of_seq(hb);
        } else {
            is_char_boundary_iff_not_is_continuation_byte(bytes, from as int);
            is_char_boundary_iff_not_is_continuation_byte(hb, from as int);
        }
    }
    let (_, piece) = head.split_at(from);
    piece.to_owned()
}

/// Splits `text` into sections, with the byte ranges `ranges` as links.
pub fn split_sections(text: &str, ranges: &Vec<(usize, usize)>) -> (r: (Vec<String>, Vec<bool>))
    requires
        ranges_ordered(ranges@, text.spec_bytes()),
    ensures
        r.0.len() == r.1.len(),
        zipped(r.0@, r.1@) == sections_of(text.spec_bytes(), ranges@),
{
    let ghost bytes = text.spec_bytes();
    let mut values: Vec<String> = Vec::new();
    let mut links: Vec<bool> = Vec::new();
    proof {
        encode_utf8_valid_utf8(text@);
        is_char_boundary_start_end_of_seq(bytes);
    }
    if ranges.len() == 0 {
        let whole = text.to_owned();
        values.push(whole);
        links.push(false);
        assert(zipped(values@, links@) =~= seq![(bytes, false)]);
    } else {
        let ghost all = pieces(bytes, ranges@, 0, 0);
        let n = text.as_bytes().len();
        let mut idx: usize = 0;
        let mut k: usize = 0;
        while k < ranges.len()
            invariant
                ranges_ordered(ranges@, bytes),
                bytes == text.spec_bytes(),
                valid_utf8(bytes),
                is_char_boundary(bytes, 0),
                is_char_boundary(bytes, bytes.len() as int),
                n == bytes.len(),
                0 <= k <= ranges.len(),
                k == 0 ==> idx == 0,
                k > 0 ==> idx == ranges@[k - 1].1,
                idx <= n,
                is_char_boundary(bytes, idx as int),
                values.len() == links.len(),
                zipped(values@, links@) + pieces(bytes, ranges@, k as int, idx as int) == all,
            decreases ranges.len() - k,
        {
            let (start, end) = ranges[k];
            assert(start < end <= n && is_char_boundary(bytes, start as int) && is_char_boundary(
                bytes,
                end as int,
            )) by {
                assert(ranges@[k as int].0 == start);
            }
            if k > 0 {
                assert(ranges@[k - 1].1 <= ranges@[k as int].0);
            }
            let ghost before = zipped(values@, links@);
            let ghost rest = pieces(bytes, ranges@, k as int + 1, end as int);
            if idx < start {
                values.push(byte_slice(text, idx, start));
                links.push(false);
            }
            values.push(byte_slice(text, start, end));
            links.push(true);
            proof {
                let gap = if idx < start {
                    seq![(bytes.subrange(idx as int, start as int), false)]
                } else {
                    seq![]
                };
                let link = seq![(bytes.subrange(start as int, end as int), true)];
                assert(zipped(values@, links@) =~= before + gap + link);
                assert(pieces(bytes, ranges@, k as int, idx as int) == gap + link + rest);
                assert(before + gap + link + rest =~= before + (gap + link + rest));
            }
            idx = end;
            k = k + 1;
        }
        if idx < n {
            let ghost before = zipped(values@, links@);
            values.push(byte_slice(text, idx, n));
            links.push(false);
            assert(zipped(values@, links@) =~= before + pieces(bytes, ranges@, k as int, idx as int));
        } else {
            assert(zipped(values@, links@) =~= zipped(values@, links@) + pieces(
                bytes,
                ranges@,
                k as int,
                idx as int,
            ));
        }
    }
    let ghost before = zipped(values@, links@);
    let cursor = " ".to_owned();
    proof {
        reveal_strlit(" ");
        assert(cursor@ =~= seq![' ']);
    }
    values.push(cursor);
    links.push(false);
    proof {
        assert(zipped(values@, links@) =~= before.push(cursor_section()));
    }
    (values, links)
}

/// The sections of `text`, with the URLs that the link finder recognises in it
/// as links.
pub fn get_sections(text: String) -> (r: (Vec<String>, Vec<bool>))
    ensures
        r.0.len() == r.1.len(),
        zipped(r.0@, r.1@) == sections_of(encode_utf8(text@), url_ranges(text@)),
{
    let ranges = find_url_ranges(text.as_str());
    split_sections(text.as_str(), &ranges)
}

/// Ranges that are non-empty, lie inside a text of `len` bytes, and come in
/// order without overlapping: what [`ranges_ordered`] says but for character
/// boundaries.
pub open spec fn ranges_within(ranges: Seq<(usize, usize)>, len: nat) -> bool {
    &&& forall|i: int| 0 <= i < ranges.len() ==> #[trigger] ranges[i].0 < ranges[i].1 <= len
    &&& forall|i: int| 0 < i < ranges.len() ==> ranges[i - 1].1 <= #[trigger] ranges[i].0
}

/// The bytes of a run of sections, joined.
pub open spec fn concat(parts: Seq<(Seq<u8>, bool)>) -> Seq<u8>
    decreases parts.len(),
{
    if parts.len() == 0 {
        seq![]
    } else {
        parts[0].0 + concat(parts.subrange(1, parts.len() as int))
    }
}

/// The bytes of the sections of a run that are links, in order.
pub open spec fn link_texts(parts: Seq<(Seq<u8>, bool)>) -> Seq<Seq<u8>>
    decreases parts.len(),
{
    if parts.len() == 0 {
        seq![]
    } else {
        let head: Seq<Seq<u8>> = if parts[0].1 {
            seq![parts[0].0]
        } else {
            seq![]
        };
        head + link_texts(parts.subrange(1, parts.len() as int))
    }
}

/// The texts of the ranges from the one at `k` on.
pub open spec fn range_texts(text: Seq<u8>, ranges: Seq<(usize, usize)>, k: int) -> Seq<Seq<u8>> {
    Seq::new(
        (ranges.len() - k) as nat,
        |i: int| text.subrange(ranges[k + i].0 as int, ranges[k + i].1 as int),
    )
}

proof fn lemma_concat_append(a: Seq<(Seq<u8>, bool)>, b: Seq<(Seq<u8>, bool)>)
    ensures
        concat(a + b) == concat(a) + concat(b),
        link_texts(a + b) == link_texts(a) + link_texts(b),
    decreases a.len(),
{
    if a.len() == 0 {
        assert(a + b =~= b);
    } else {
        let rest = a.subrange(1, a.len() as int);
        assert((a + b).subrange(1, (a + b).len() as int) =~= rest + b);
        lemma_concat_append(rest, b);
        assert(concat(a) + concat(b) =~= a[0].0 + (concat(rest) + concat(b)));
        assert(link_texts(a) + link_texts(b) =~= (if a[0].1 {
            seq![a[0].0]
        } else {
            seq![]
        }) + (link_texts(rest) + link_texts(b)));
    }
}

proof fn lemma_single(p: (Seq<u8>, bool))
    ensures
        concat(seq![p]) == p.0,
        link_texts(seq![p]) == (if p.1 {
            seq![p.0]
        } else {
            Seq::<Seq<u8>>::empty()
        }),
{
    let one = seq![p];
    let none = Seq::<(Seq<u8>, bool)>::empty();
    assert(one.subrange(1, 1) =~= none);
    assert(concat(none) == Seq::<u8>::empty());
    assert(link_texts(none) == Seq::<Seq<u8>>::empty());
    assert(concat(one) == one[0].0 + concat(none));
    assert(concat(one) =~= p.0);
    assert(link_texts(one) =~= (if p.1 {
        seq![p.0]
    } else {
        Seq::<Seq<u8>>::empty()
    }));
}

proof fn lemma_pieces(text: Seq<u8>, ranges: Seq<(usize, usize)>, k: int, from: int)
    requires
        ranges_within(ranges, text.len()),
        0 <= k <= ranges.len(),
        0 <= from <= text.len(),
        k < ranges.len() ==> from <= ranges[k].0,
    ensures
        concat(pieces(text, ranges, k, from)) == text.subrange(from, text.len() as int),
        link_texts(pieces(text, ranges, k, from)) == range_texts(text, ranges, k),
    decreases ranges.len() - k,
{
    if k >= ranges.len() {
        if from < text.len() {
            lemma_single((text.subrange(from, text.len() as int), false));
        } else {
            assert(text.subrange(from, text.len() as int) =~= seq![]);
        }
        assert(range_texts(text, ranges, k) =~= seq![]);
    } else {
        let (s, e) = ranges[k];
        let gap: Seq<(Seq<u8>, bool)> = if from < s {
            seq![(text.subrange(from, s as int), false)]
        } else {
            seq![]
        };
        let link = seq![(text.subrange(s as int, e as int), true)];
        let rest = pieces(text, ranges, k + 1, e as int);
        if k + 1 < ranges.len() {
            assert(ranges[k].1 <= ranges[k + 1].0);
        }
        lemma_pieces(text, ranges, k + 1, e as int);
        lemma_concat_append(gap + link, rest);
        lemma_concat_append(gap, link);
        lemma_single((text.subrange(s as int, e as int), true));
        if from < s {
            lemma_single((text.subrange(from, s as int), false));
        } else {
            assert(concat(gap) =~= text.subrange(from, s as int));
            assert(link_texts(gap) =~= seq![]);
        }
        assert(concat(pieces(text, ranges, k, from)) =~= text.subrange(from, text.len() as int));
        assert(link_texts(pieces(text, ranges, k, from)) =~= range_texts(text, ranges, k));
    }
}

/// Joining the sections of a text, all but the cursor that ends them, gives
/// the text's bytes back; and the cursor is the last section.
pub proof fn lemma_sections_rejoin(text: Seq<u8>, ranges: Seq<(usize, usize)>)
    requires
        ranges_within(ranges, text.len()),
    ensures
        ({
            let secs = sections_of(text, ranges);
            &&& secs.len() >= 2
            &&& secs.last() == cursor_section()
            &&& concat(secs.drop_last()) == text
        }),
{
    let secs = sections_of(text, ranges);
    if ranges.len() == 0 {
        assert(secs.drop_last() =~= seq![(text, false)]);
        lemma_single((text, false));
    } else {
        lemma_pieces(text, ranges, 0, 0);
        assert(secs.drop_last() =~= pieces(text, ranges, 0, 0));
        assert(text.subrange(0, text.len() as int) =~= text);
    }
}

/// The sections marked as links are, in order, the texts of the ranges.
pub proof fn lemma_sections_links(text: Seq<u8>, ranges: Seq<(usize, usize)>)
    requires
        ranges_within(ranges, text.len()),
    ensures
        link_texts(sections_of(text, ranges)) == range_texts(text, ranges, 0),
{
    let secs = sections_of(text, ranges);
    lemma_single(cursor_section());
    if ranges.len() == 0 {
        lemma_single((text, false));
        assert(secs =~= seq![(text, false)] + seq![cursor_section()]);
        lemma_concat_append(seq![(text, false)], seq![cursor_section()]);
        assert(link_texts(secs) =~= range_texts(text, ranges, 0));
    } else {
        lemma_pieces(text, ranges, 0, 0);
        assert(secs =~= pieces(text, ranges, 0, 0) + seq![cursor_section()]);
        lemma_concat_append(pieces(text, ranges, 0, 0), seq![cursor_section()]);
        assert(link_texts(secs) =~= range_texts(text, ranges, 0));
    }
}

} // verus!
