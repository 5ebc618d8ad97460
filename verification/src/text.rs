//! Character-level helpers for type identifiers and file names.

use vstd::prelude::*;

verus! {

/// What an optional string says, as characters.
pub open spec fn text_of(text: Option<String>) -> Option<Seq<char>> {
    match text {
        Some(text) => Some(text@),
        None => None,
    }
}

/// The lower-case form of an ASCII capital; every other character is itself.
pub open spec fn lower_spec(c: char) -> char {
    if 'A' <= c && c <= 'Z' {
        ((c as u8) + 32) as char
    } else {
        c
    }
}

/// `text` with every ASCII capital replaced by its lower-case form.
pub open spec fn normalized(text: Seq<char>) -> Seq<char> {
    text.map_values(|c: char| lower_spec(c))
}

/// The characters of `text`, in order.
pub fn chars_of(text: &str) -> (chars: Vec<char>)
    ensures
        chars@ == text@,
{
    let mut chars: Vec<char> = Vec::new();
    for c in it: text.chars()
        invariant
            chars@ == it.seq().take(it.index()),
            it.seq() == text@,
    {
        chars.push(c);
    }
    chars
}

/// Whether `chars` spells exactly `text`.
pub fn spells(chars: &Vec<char>, text: &str) -> (same: bool)
    ensures
        same == (chars@ == text@),
{
    let other = chars_of(text);
    if chars.len() != other.len() {
        return false;
    }
    let mut i: usize = 0;
    while i < chars.len()
        invariant
            i <= chars.len() == other.len(),
            other@ == text@,
            forall|k: int| 0 <= k < i ==> chars[k] == other[k],
        decreases chars.len() - i,
    {
        if chars[i] != other[i] {
            return false;
        }
        i += 1;
    }
    assert(chars@ =~= other@);
    true
}

/// Folds one character to lower case.
pub fn lower(c: char) -> (folded: char)
    ensures
        folded == lower_spec(c),
{
    if 'A' <= c && c <= 'Z' {
        let code: u8 = c as u8;
        (code + 32) as char
    } else {
        c
    }
}

/// Folds every character of `chars` to lower case.
pub fn normalize(chars: &Vec<char>) -> (folded: Vec<char>)
    ensures
        folded@ == normalized(chars@),
{
    let mut folded: Vec<char> = Vec::new();
    let mut i: usize = 0;
    while i < chars.len()
        invariant
            i <= chars.len(),
            folded@ == normalized(chars@.take(i as int)),
        decreases chars.len() - i,
    {
        folded.push(lower(chars[i]));
        i += 1;
    }
    folded
}

/// Folding is settled after one pass, and keeps the length.
pub proof fn lemma_normalized_once(text: Seq<char>)
    ensures
        normalized(normalized(text)) == normalized(text),
        normalized(text).len() == text.len(),
{
}

} // verus!
