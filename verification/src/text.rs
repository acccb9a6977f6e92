//! Searching a text for a literal, and replacing it.
//!
//! The search runs over the UTF-8 bytes of the two strings; the contracts speak
//! of their characters. The lemmas of this module show that the two agree: a
//! literal stands in a text at some character exactly where its bytes stand in
//! the bytes of the text, and the first place of the one is the first place of
//! the other.

use vstd::prelude::*;
use vstd::string::StringExecFns;
use vstd::string::StringSliceAdditionalSpecFns;
use vstd::utf8::*;

verus! {

/// `needle` stands in `hay` at position `i`.
pub open spec fn occurs_at<T>(needle: Seq<T>, hay: Seq<T>, i: int) -> bool {
    &&& 0 <= i
    &&& i + needle.len() <= hay.len()
    &&& hay.subrange(i, i + needle.len()) == needle
}

/// `needle` stands somewhere in `hay` as a contiguous run.
pub open spec fn occurs_in<T>(needle: Seq<T>, hay: Seq<T>) -> bool {
    exists|i: int| occurs_at(needle, hay, i)
}

/// `needle` stands in `hay` at position `i` and nowhere before it.
pub open spec fn occurs_first_at<T>(needle: Seq<T>, hay: Seq<T>, i: int) -> bool {
    &&& occurs_at(needle, hay, i)
    &&& forall|j: int| 0 <= j < i ==> !occurs_at(needle, hay, j)
}

/// The first position at which `needle` stands in `hay`, where it stands in
/// `hay` at all.
pub open spec fn first_occurrence<T>(needle: Seq<T>, hay: Seq<T>) -> int
    recommends
        occurs_in(needle, hay),
{
    choose|i: int| occurs_first_at(needle, hay, i)
}

/// `text` with the first `from` in it replaced by `to`; `text` itself where
/// `from` does not stand in it.
pub open spec fn spec_replace_first(text: Seq<char>, from: Seq<char>, to: Seq<char>) -> Seq<char> {
    if occurs_in(from, text) {
        let at = first_occurrence(from, text);
        text.subrange(0, at) + to + text.subrange(at + from.len(), text.len() as int)
    } else {
        text
    }
}

/// What stands in `text` before the first `mark`; all of `text` where `mark`
/// does not stand in it.
pub open spec fn spec_before_first(text: Seq<char>, mark: Seq<char>) -> Seq<char> {
    if occurs_in(mark, text) {
        text.subrange(0, first_occurrence(mark, text))
    } else {
        text
    }
}

/// The first `upto` items of `needle` equal those of `hay` from `start` on.
spec fn agrees_upto(needle: Seq<u8>, hay: Seq<u8>, start: int, upto: int) -> bool {
    forall|k: int| 0 <= k < upto ==> hay[start + k] == needle[k]
}

/// Whether `needle` stands in `hay` at `start`.
fn bytes_occur_at(needle: &[u8], hay: &[u8], start: usize) -> (found: bool)
    requires
        start + needle.len() <= hay.len(),
    ensures
        found == occurs_at(needle@, hay@, start as int),
{
    let mut k: usize = 0;
    while k < needle.len()
        invariant
            k <= needle.len(),
            start + needle.len() <= hay.len(),
            agrees_upto(needle@, hay@, start as int, k as int),
        decreases needle.len() - k,
    {
        if hay[start + k] != needle[k] {
            proof {
                let window = hay@.subrange(start as int, start + needle.len());
                assert(window[k as int] != needle@[k as int]);
            }
            return false;
        }
        k += 1;
    }
    assert(hay@.subrange(start as int, start + needle.len()) =~= needle@);
    true
}

/// The first position at which `needle` stands in `hay`.
fn bytes_find(needle: &[u8], hay: &[u8]) -> (place: Option<usize>)
    ensures
        match place {
            Some(i) => occurs_first_at(needle@, hay@, i as int),
            None => !occurs_in(needle@, hay@),
        },
{
    if needle.len() > hay.len() {
        return None;
    }
    let last: usize = hay.len() - needle.len();
    let mut i: usize = 0;
    loop
        invariant
            last + needle.len() == hay.len(),
            i <= last,
            forall|j: int| 0 <= j < i ==> !occurs_at(needle@, hay@, j),
        decreases last - i,
    {
        if bytes_occur_at(needle, hay, i) {
            return Some(i);
        }
        if i == last {
            return None;
        }
        i += 1;
    }
}

/// Whether `needle` stands somewhere in `text`, character for character.
pub fn contains(text: &str, needle: &str) -> (found: bool)
    ensures
        found == occurs_in(needle@, text@),
{
    proof {
        lemma_utf8_occurrence(needle@, text@);
    }
    bytes_find(needle.as_bytes(), text.as_bytes()).is_some()
}

/// Whether `a` and `b` are the same text.
pub fn same_text(a: &str, b: &str) -> (same: bool)
    ensures
        same == (a@ == b@),
{
    broadcast use encode_utf8_decode_utf8;

    let left = a.as_bytes();
    let right = b.as_bytes();
    if left.len() != right.len() {
        return false;
    }
    let same = bytes_occur_at(left, right, 0);
    assert(right@.subrange(0, right@.len() as int) =~= right@);
    assert(same ==> decode_utf8(encode_utf8(a@)) == decode_utf8(encode_utf8(b@)));
    same
}

/// `text` with the first `from` in it replaced by `to`. An empty `from` stands
/// at the very beginning of every text.
pub fn replace_first(text: &str, from: &str, to: &str) -> (replaced: String)
    ensures
        replaced@ == spec_replace_first(text@, from@, to@),
{
    broadcast use {encode_utf8_valid_utf8, encode_utf8_decode_utf8};

    let ghost bytes = encode_utf8(text@);
    let needle = from.as_bytes();
    match bytes_find(needle, text.as_bytes()) {
        Some(start) => {
            let ghost at = lemma_utf8_first_occurrence(from@, text@, start as int);
            let (head, tail) = text.split_at(start);
            proof {
                valid_utf8_split(bytes, start as int);
                assert(tail.spec_bytes().subrange(0, needle@.len() as int) =~= needle@);
                lemma_prefix_ends_on_boundary(needle@, tail.spec_bytes());
            }
            let (_, rest) = tail.split_at(needle.len());
            proof {
                assert(rest.spec_bytes() =~= bytes.subrange(
                    start + needle@.len(),
                    bytes.len() as int,
                ));
                assert(decode_utf8(encode_utf8(head@)) == text@.subrange(0, at));
                assert(decode_utf8(encode_utf8(rest@)) == text@.subrange(
                    at + from@.len(),
                    text@.len() as int,
                ));
                lemma_first_occurrence_is_unique(from@, text@, at);
            }
            let mut replaced = String::from_str(head);
            replaced.append(to);
            replaced.append(rest);
            replaced
        },
        None => {
            proof {
                lemma_utf8_occurrence(from@, text@);
            }
            text.to_owned()
        },
    }
}

/// What stands in `text` before the first `mark`; all of `text` where `mark`
/// does not stand in it.
pub fn before_first<'a>(text: &'a str, mark: &str) -> (head: &'a str)
    ensures
        head@ == spec_before_first(text@, mark@),
{
    broadcast use encode_utf8_decode_utf8;

    match bytes_find(mark.as_bytes(), text.as_bytes()) {
        Some(start) => {
            let ghost at = lemma_utf8_first_occurrence(mark@, text@, start as int);
            let (head, _) = text.split_at(start);
            proof {
                assert(decode_utf8(encode_utf8(head@)) == text@.subrange(0, at));
                lemma_first_occurrence_is_unique(mark@, text@, at);
            }
            head
        },
        None => {
            proof {
                lemma_utf8_occurrence(mark@, text@);
            }
            text
        },
    }
}

/// Where a literal stands in a text at all, it has exactly one first place.
pub proof fn lemma_first_occurrence_is_unique<T>(needle: Seq<T>, hay: Seq<T>, i: int)
    requires
        occurs_first_at(needle, hay, i),
    ensures
        occurs_in(needle, hay),
        first_occurrence(needle, hay) == i,
{
    let chosen = first_occurrence(needle, hay);
    assert(occurs_first_at(needle, hay, chosen));
}

/// The encoding of a concatenation is the concatenation of the encodings.
pub proof fn lemma_encode_utf8_concat(a: Seq<char>, b: Seq<char>)
    ensures
        encode_utf8(a + b) == encode_utf8(a) + encode_utf8(b),
    decreases a.len(),
{
    if a.len() == 0 {
        assert(a + b =~= b);
        assert(encode_utf8(a) + encode_utf8(b) =~= encode_utf8(b));
    } else {
        assert((a + b).drop_first() =~= a.drop_first() + b);
        lemma_encode_utf8_concat(a.drop_first(), b);
        assert(encode_utf8(a + b) =~= encode_utf8(a) + encode_utf8(b));
    }
}

/// A text that is not empty has an encoding that is not empty.
proof fn lemma_encoding_is_not_empty(a: Seq<char>)
    requires
        a.len() > 0,
    ensures
        encode_utf8(a).len() > 0,
{
    encode_utf8_first_scalar(a);
}

/// A valid encoding that begins another valid encoding ends on a character
/// boundary of it.
proof fn lemma_prefix_ends_on_boundary(prefix: Seq<u8>, bytes: Seq<u8>)
    requires
        valid_utf8(prefix),
        valid_utf8(bytes),
        occurs_at(prefix, bytes, 0),
    ensures
        is_char_boundary(bytes, prefix.len() as int),
    decreases prefix.len(),
{
    if prefix.len() != 0 {
        let width = length_of_first_scalar(prefix);
        assert(bytes.subrange(0, prefix.len() as int)[0] == prefix[0]);
        assert(width == length_of_first_scalar(bytes));
        let rest = pop_first_scalar(prefix);
        let tail = pop_first_scalar(bytes);
        assert(tail.subrange(0, rest.len() as int) =~= rest) by {
            assert forall|k: int| 0 <= k < rest.len() implies tail[k] == rest[k] by {
                assert(bytes.subrange(0, prefix.len() as int)[k + width] == prefix[k + width]);
            }
        }
        lemma_prefix_ends_on_boundary(rest, tail);
    }
}

/// Where a literal stands in a text at character `i`, its bytes stand in the
/// bytes of the text, behind the bytes of the first `i` characters.
pub proof fn lemma_occurrence_in_bytes(needle: Seq<char>, hay: Seq<char>, i: int) -> (start: int)
    requires
        occurs_at(needle, hay, i),
    ensures
        start == encode_utf8(hay.subrange(0, i)).len(),
        occurs_at(encode_utf8(needle), encode_utf8(hay), start),
{
    let before = hay.subrange(0, i);
    let after = hay.subrange(i + needle.len(), hay.len() as int);
    assert(hay =~= before + needle + after);
    lemma_encode_utf8_concat(before + needle, after);
    lemma_encode_utf8_concat(before, needle);
    let start = encode_utf8(before).len() as int;
    assert(encode_utf8(hay).subrange(start, start + encode_utf8(needle).len()) =~= encode_utf8(
        needle,
    ));
    start
}

/// Where the bytes of a literal stand in the bytes of a text at `start`, and
/// the literal is not empty or `start` is 0, the literal stands in the text:
/// the bytes before `start` write the characters before it, and the bytes
/// behind it those behind it.
pub proof fn lemma_occurrence_in_chars(needle: Seq<char>, hay: Seq<char>, start: int) -> (i: int)
    requires
        occurs_at(encode_utf8(needle), encode_utf8(hay), start),
        needle.len() > 0 || start == 0,
    ensures
        occurs_at(needle, hay, i),
        is_char_boundary(encode_utf8(hay), start),
        encode_utf8(hay.subrange(0, i)) == encode_utf8(hay).subrange(0, start),
        encode_utf8(hay.subrange(i + needle.len(), hay.len() as int)) == encode_utf8(
            hay,
        ).subrange(start + encode_utf8(needle).len(), encode_utf8(hay).len() as int),
{
    broadcast use {
        encode_utf8_valid_utf8,
        encode_utf8_decode_utf8,
        decode_utf8_encode_utf8,
        is_char_boundary_start_end_of_seq,
    };

    let n = encode_utf8(needle);
    let h = encode_utf8(hay);
    if needle.len() > 0 {
        lemma_encoding_is_not_empty(needle);
        assert(h.subrange(start, start + n.len())[0] == n[0]);
        is_char_boundary_iff_not_is_continuation_byte(n, 0);
        is_char_boundary_iff_not_is_continuation_byte(h, start);
    }
    let head = h.subrange(0, start);
    let tail = h.subrange(start, h.len() as int);
    valid_utf8_split(h, start);
    decode_utf8_split(h, start);
    assert(tail.subrange(0, n.len() as int) =~= n);
    lemma_prefix_ends_on_boundary(n, tail);
    valid_utf8_split(tail, n.len() as int);
    decode_utf8_split(tail, n.len() as int);
    let rest = tail.subrange(n.len() as int, tail.len() as int);
    assert(rest =~= h.subrange(start + n.len(), h.len() as int));
    let before = decode_utf8(head);
    let after = decode_utf8(rest);
    let i = before.len() as int;
    assert(hay =~= before + needle + after);
    assert(hay.subrange(i, i + needle.len()) =~= needle);
    assert(hay.subrange(0, i) =~= before);
    assert(hay.subrange(i + needle.len(), hay.len() as int) =~= after);
    i
}

/// A literal stands in a text exactly when its UTF-8 bytes stand in the UTF-8
/// bytes of the text.
pub proof fn lemma_utf8_occurrence(needle: Seq<char>, hay: Seq<char>)
    ensures
        occurs_in(encode_utf8(needle), encode_utf8(hay)) <==> occurs_in(needle, hay),
{
    if occurs_in(needle, hay) {
        let i = choose|i: int| occurs_at(needle, hay, i);
        lemma_occurrence_in_bytes(needle, hay, i);
    }
    if occurs_in(encode_utf8(needle), encode_utf8(hay)) {
        if needle.len() == 0 {
            assert(hay.subrange(0, 0) =~= needle);
            assert(occurs_at(needle, hay, 0));
        } else {
            let start = choose|j: int| occurs_at(encode_utf8(needle), encode_utf8(hay), j);
            lemma_occurrence_in_chars(needle, hay, start);
        }
    }
}

/// The first place of the bytes of a literal in the bytes of a text is where
/// the first place of the literal in the text is written.
pub proof fn lemma_utf8_first_occurrence(needle: Seq<char>, hay: Seq<char>, start: int) -> (i: int)
    requires
        occurs_first_at(encode_utf8(needle), encode_utf8(hay), start),
    ensures
        occurs_first_at(needle, hay, i),
        is_char_boundary(encode_utf8(hay), start),
        encode_utf8(hay.subrange(0, i)) == encode_utf8(hay).subrange(0, start),
        encode_utf8(hay.subrange(i + needle.len(), hay.len() as int)) == encode_utf8(
            hay,
        ).subrange(start + encode_utf8(needle).len(), encode_utf8(hay).len() as int),
{
    if needle.len() == 0 && start != 0 {
        assert(encode_utf8(hay).subrange(0, 0) =~= encode_utf8(needle));
        assert(occurs_at(encode_utf8(needle), encode_utf8(hay), 0));
    }
    let i = lemma_occurrence_in_chars(needle, hay, start);
    assert forall|j: int| 0 <= j < i implies !occurs_at(needle, hay, j) by {
        if occurs_at(needle, hay, j) {
            let earlier = lemma_occurrence_in_bytes(needle, hay, j);
            let between = hay.subrange(j, i);
            assert(hay.subrange(0, i) =~= hay.subrange(0, j) + between);
            lemma_encode_utf8_concat(hay.subrange(0, j), between);
            lemma_encoding_is_not_empty(between);
            assert(encode_utf8(hay).subrange(0, start).len() == start);
            assert(earlier < start);
        }
    }
    i
}

} // verus!
