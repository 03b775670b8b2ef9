//! Searching the transcript.
//!
//! A segment matches a query where the query occurs in the segment's text,
//! upper and lower case not told apart. An empty query matches everything.

use crate::transcription::TranscriptionResult;
use vstd::prelude::*;

verus! {

/// What the standard library makes of a text when it lowers its case.
pub uninterp spec fn lowercase(text: Seq<char>) -> Seq<char>;

/// `str::to_lowercase`, by name: the contract says that the result is the
/// standard library's lower-case form of the text and claims nothing about
/// what that form is.
#[verifier::external_body]
fn to_lowercase(text: &str) -> (lowered: String)
    ensures
        lowered@ == lowercase(text@),
{
    text.to_lowercase()
}

/// Whether `needle` stands in `haystack` at position `at`.
pub open spec fn occurs_at(haystack: Seq<char>, needle: Seq<char>, at: int) -> bool {
    &&& 0 <= at
    &&& at + needle.len() <= haystack.len()
    &&& haystack.subrange(at, at + needle.len()) == needle
}

/// Whether `needle` stands somewhere in `haystack`. The empty text stands in
/// every text.
pub open spec fn occurs_in(haystack: Seq<char>, needle: Seq<char>) -> bool {
    exists|at: int| occurs_at(haystack, needle, at)
}

/// Whether a text matches a query: the lower-case query occurs in the
/// lower-case text.
pub open spec fn matches_query(text: Seq<char>, query: Seq<char>) -> bool {
    occurs_in(lowercase(text), lowercase(query))
}

/// Whether a segment is shown under a query: every segment under the empty
/// query, the matching ones under any other.
pub open spec fn shown_under(text: Seq<char>, query: Seq<char>) -> bool {
    query.len() == 0 || matches_query(text, query)
}

/// The positions of the segments shown under a query, in order.
pub open spec fn shown_positions(transcriptions: Seq<TranscriptionResult>, query: Seq<char>) -> Seq<
    usize,
>
    decreases transcriptions.len(),
{
    if transcriptions.len() == 0 {
        Seq::empty()
    } else {
        let before = shown_positions(transcriptions.drop_last(), query);
        if shown_under(transcriptions.last().text@, query) {
            before.push((transcriptions.len() - 1) as usize)
        } else {
            before
        }
    }
}

/// Number of segments that match a query.
pub open spec fn matching(transcriptions: Seq<TranscriptionResult>, query: Seq<char>) -> nat
    decreases transcriptions.len(),
{
    if transcriptions.len() == 0 {
        0
    } else {
        matching(transcriptions.drop_last(), query) + if matches_query(
            transcriptions.last().text@,
            query,
        ) {
            1nat
        } else {
            0nat
        }
    }
}

/// The characters of a text, one by one.
pub fn chars_of(text: &str) -> (chars: Vec<char>)
    ensures
        chars@ == text@,
{
    let mut chars: Vec<char> = Vec::new();
    let ghost all = text@;
    for c in it: text.chars()
        invariant
            it.seq() == all,
            chars@ =~= all.take(it.index() as int),
    {
        chars.push(c);
    }
    chars
}

/// Whether `needle` stands in `haystack` at position `at`.
fn stands_at(haystack: &[char], needle: &[char], at: usize) -> (found: bool)
    requires
        at + needle@.len() <= haystack@.len(),
    ensures
        found == occurs_at(haystack@, needle@, at as int),
{
    let size = haystack.len();
    let mut k: usize = 0;
    while k < needle.len()
        invariant
            k <= needle@.len(),
            size == haystack@.len(),
            at + needle@.len() <= haystack@.len(),
            forall|j: int| 0 <= j < k ==> haystack@[at + j] == needle@[j],
        decreases needle@.len() - k,
    {
        if haystack[at + k] != needle[k] {
            return false;
        }
        k += 1;
    }
    assert(haystack@.subrange(at as int, at + needle@.len()) =~= needle@);
    true
}

/// Whether `needle` stands somewhere in `haystack`.
pub fn contains(haystack: &[char], needle: &[char]) -> (found: bool)
    ensures
        found == occurs_in(haystack@, needle@),
{
    if needle.len() > haystack.len() {
        return false;
    }
    let last = haystack.len() - needle.len();
    let mut at: usize = 0;
    loop
        invariant
            at <= last,
            last == haystack@.len() - needle@.len(),
            forall|earlier: int| 0 <= earlier < at ==> !occurs_at(haystack@, needle@, earlier),
        decreases last - at,
    {
        if stands_at(haystack, needle, at) {
            return true;
        }
        if at == last {
            return false;
        }
        at += 1;
    }
}

/// Whether a text matches a query, upper and lower case not told apart.
pub fn matches_search(text: &str, query: &str) -> (matched: bool)
    ensures
        matched == matches_query(text@, query@),
{
    let text_chars = chars_of(to_lowercase(text).as_str());
    let query_chars = chars_of(to_lowercase(query).as_str());
    contains(text_chars.as_slice(), query_chars.as_slice())
}

/// Number of segments that match a query.
pub fn match_count(transcriptions: &[TranscriptionResult], query: &str) -> (count: usize)
    ensures
        count == matching(transcriptions@, query@),
{
    let mut count: usize = 0;
    let mut i: usize = 0;
    while i < transcriptions.len()
        invariant
            i <= transcriptions@.len(),
            count <= i,
            count == matching(transcriptions@.take(i as int), query@),
        decreases transcriptions@.len() - i,
    {
        assert(transcriptions@.take(i + 1).drop_last() =~= transcriptions@.take(i as int));
        if matches_search(transcriptions[i].text.as_str(), query) {
            count += 1;
        }
        i += 1;
    }
    assert(transcriptions@.take(i as int) =~= transcriptions@);
    count
}

/// The positions of the segments to show under a query, in order: all of them
/// under the empty query, the matching ones under any other.
pub fn visible_segments(transcriptions: &[TranscriptionResult], query: &str) -> (positions: Vec<
    usize,
>)
    ensures
        positions@ == shown_positions(transcriptions@, query@),
{
    let mut positions: Vec<usize> = Vec::new();
    let show_all = query.is_empty();
    let mut i: usize = 0;
    while i < transcriptions.len()
        invariant
            i <= transcriptions@.len(),
            show_all <==> query@.len() == 0,
            positions@ == shown_positions(transcriptions@.take(i as int), query@),
        decreases transcriptions@.len() - i,
    {
        assert(transcriptions@.take(i + 1).drop_last() =~= transcriptions@.take(i as int));
        if show_all || matches_search(transcriptions[i].text.as_str(), query) {
            positions.push(i);
        }
        i += 1;
    }
    assert(transcriptions@.take(i as int) =~= transcriptions@);
    positions
}

} // verus!
