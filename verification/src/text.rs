//! Small operations on text that the rest of the crate shares.

use vstd::prelude::*;

verus! {

/// `text` ends with `suffix`.
pub open spec fn ends_with(text: Seq<char>, suffix: Seq<char>) -> bool {
    &&& suffix.len() <= text.len()
    &&& text.subrange(text.len() - suffix.len(), text.len() as int) == suffix
}

/// The characters of each text.
pub open spec fn texts_of(texts: Seq<String>) -> Seq<Seq<char>> {
    texts.map_values(|t: String| t@)
}

/// The characters of `text`, in order.
pub fn chars_of(text: &str) -> (chars: Vec<char>)
    ensures
        chars@ == text@,
{
    let mut chars: Vec<char> = Vec::new();
    for c in it: text.chars()
        invariant
            it.seq() == text@,
            chars@ == text@.take(it.index() as int),
    {
        chars.push(c);
        assert(chars@ =~= text@.take(it.index() + 1));
    }
    assert(text@.take(text@.len() as int) =~= text@);
    chars
}

/// Calls `String::push`, which appends one character to the end of the text.
#[verifier::external_body]
fn push_char(text: &mut String, c: char)
    ensures
        final(text)@ == old(text)@.push(c),
{
    text.push(c);
}

/// The text made of `chars`, in order.
pub fn string_of(chars: &Vec<char>) -> (text: String)
    ensures
        text@ == chars@,
{
    let mut text = String::new();
    let mut i: usize = 0;
    while i < chars.len()
        invariant
            i <= chars.len(),
            text@ == chars@.take(i as int),
        decreases chars.len() - i,
    {
        push_char(&mut text, chars[i]);
        i += 1;
        assert(text@ =~= chars@.take(i as int));
    }
    assert(chars@.take(i as int) =~= chars@);
    text
}

/// Whether `text` ends with `suffix`.
pub fn has_suffix(text: &Vec<char>, suffix: &Vec<char>) -> (found: bool)
    ensures
        found == ends_with(text@, suffix@),
{
    if suffix.len() > text.len() {
        return false;
    }
    let offset = text.len() - suffix.len();
    let ghost tail = text@.subrange(offset as int, text@.len() as int);
    let mut i: usize = 0;
    while i < suffix.len()
        invariant
            i <= suffix.len(),
            offset + suffix.len() == text.len(),
            tail == text@.subrange(offset as int, text@.len() as int),
            forall|k: int| 0 <= k < i ==> tail[k] == suffix@[k],
        decreases suffix.len() - i,
    {
        if text[offset + i] != suffix[i] {
            assert(tail[i as int] != suffix@[i as int]);
            return false;
        }
        i += 1;
    }
    assert(tail =~= suffix@);
    true
}

} // verus!
