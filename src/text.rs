//! Character-level helpers: display width, conversions between `String` and
//! character vectors, and the mapping from a display column to a character
//! position.
use unicode_width::UnicodeWidthStr;
use vstd::prelude::*;
use vstd::std_specs::iter::IteratorSpec;

verus! {

/// The number of terminal columns that `s` occupies.
pub uninterp spec fn display_width(s: Seq<char>) -> nat;

/// Relies on `unicode_width::UnicodeWidthStr::width` for `str`: the column
/// count of the text; the empty text takes no column.
#[verifier::external_body]
pub(crate) fn width_of(text: &Vec<char>) -> (r: usize)
    ensures
        r as nat == display_width(text@),
        text@.len() == 0 ==> r == 0,
{
    let s: String = text.iter().collect();
    s.width()
}

/// Relies on `String::push`: appends one character at the end.
#[verifier::external_body]
pub(crate) fn push_char(s: &mut String, c: char)
    ensures
        final(s)@ == old(s)@.push(c),
{
    s.push(c)
}

/// Relies on `String::push_str`: appends the characters of `t` at the end.
#[verifier::external_body]
pub(crate) fn push_text(s: &mut String, t: &str)
    ensures
        final(s)@ == old(s)@ + t@,
{
    s.push_str(t)
}

/// The characters of `s`, in order.
pub fn chars_of(s: &str) -> (r: Vec<char>)
    ensures
        r@ == s@,
{
    broadcast use vstd::string::next_postcondition;

    let mut it = s.chars();
    let mut out: Vec<char> = Vec::new();
    loop
        invariant
            out@ + it.remaining() == s@,
        ensures
            out@ == s@,
        decreases s@.len() - out@.len(),
    {
        match it.next() {
            Some(c) => {
                out.push(c);
            },
            None => {
                assert(out@ + it.remaining() == out@);
                break;
            },
        }
    }
    out
}

/// Appends every character of `chars` to `s`.
pub fn push_all(s: &mut String, chars: &Vec<char>)
    ensures
        final(s)@ == old(s)@ + chars@,
{
    let ghost start = s@;
    let mut i: usize = 0;
    while i < chars.len()
        invariant
            i <= chars@.len(),
            s@ == start + chars@.subrange(0, i as int),
        decreases chars@.len() - i,
    {
        push_char(s, chars[i]);
        i = i + 1;
        assert(s@ =~= start + chars@.subrange(0, i as int));
    }
    assert(chars@.subrange(0, chars@.len() as int) =~= chars@);
}

/// A `String` holding exactly the given characters.
pub fn string_of(chars: &Vec<char>) -> (r: String)
    ensures
        r@ == chars@,
{
    let mut s = String::new();
    push_all(&mut s, chars);
    assert(s@ =~= chars@);
    s
}

/// Position of the first character whose preceding text is at least `col`
/// columns wide, searching from position `k`; the text's length if there is
/// none.
pub open spec fn index_from(text: Seq<char>, col: nat, k: nat) -> nat
    decreases text.len() - k,
{
    if k >= text.len() || display_width(text.subrange(0, k as int)) >= col {
        k
    } else {
        index_from(text, col, k + 1)
    }
}

/// The character position that display column `col` of `text` stands at:
/// the shortest prefix of `text` that is at least `col` columns wide.
pub open spec fn column_index(text: Seq<char>, col: nat) -> nat {
    index_from(text, col, 0)
}

proof fn lemma_index_from_bound(text: Seq<char>, col: nat, k: nat)
    requires
        k <= text.len(),
    ensures
        k <= index_from(text, col, k) <= text.len(),
    decreases text.len() - k,
{
    if k < text.len() && display_width(text.subrange(0, k as int)) < col {
        lemma_index_from_bound(text, col, k + 1);
    }
}

/// The character position of display column `col` in `text`.
pub fn column_to_index(text: &Vec<char>, col: usize) -> (r: usize)
    ensures
        r as nat == column_index(text@, col as nat),
        r <= text@.len(),
{
    proof {
        lemma_index_from_bound(text@, col as nat, 0);
    }
    let mut prefix: Vec<char> = Vec::new();
    let mut k: usize = 0;
    while k < text.len()
        invariant
            k <= text@.len(),
            prefix@ == text@.subrange(0, k as int),
            index_from(text@, col as nat, k as nat) == column_index(text@, col as nat),
        decreases text@.len() - k,
    {
        if width_of(&prefix) >= col {
            return k;
        }
        prefix.push(text[k]);
        k = k + 1;
        assert(prefix@ =~= text@.subrange(0, k as int));
    }
    k
}

} // verus!
