//! Joining and quoting texts.

use vstd::prelude::*;
use vstd::string::StringExecFns;

verus! {

/// What the standard library writes for a text in its debugging form: the text
/// between double quotes, with the characters that need it escaped.
pub uninterp spec fn debug_text(text: Seq<char>) -> Seq<char>;

/// The `Debug` rendering of a string slice, by name: the contract says that
/// the result is what the standard library's formatter writes for `{:?}`, and
/// claims nothing about what that is.
#[verifier::external_body]
pub(crate) fn quote(text: &str) -> (quoted: String)
    ensures
        quoted@ == debug_text(text@),
{
    format!("{:?}", text)
}

/// The texts laid end to end, with the separator between any two neighbours
/// and nowhere else.
pub open spec fn joined(parts: Seq<String>, separator: Seq<char>) -> Seq<char>
    decreases parts.len(),
{
    if parts.len() == 0 {
        Seq::empty()
    } else if parts.len() == 1 {
        parts[0]@
    } else {
        joined(parts.drop_last(), separator) + separator + parts.last()@
    }
}

/// Joins the texts, putting the separator between any two neighbours.
pub fn join(parts: &[String], separator: &str) -> (text: String)
    ensures
        text@ == joined(parts@, separator@),
{
    let mut text = String::new();
    let mut i: usize = 0;
    while i < parts.len()
        invariant
            i <= parts@.len(),
            text@ == joined(parts@.take(i as int), separator@),
        decreases parts@.len() - i,
    {
        assert(parts@.take(i + 1).drop_last() =~= parts@.take(i as int));
        if i > 0 {
            text.append(separator);
        }
        text.append(parts[i].as_str());
        i += 1;
    }
    assert(parts@.take(i as int) =~= parts@);
    text
}

} // verus!
