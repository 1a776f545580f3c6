//! Statements of a script file: comment lines are left out, the rest is cut
//! at `;`, and pieces holding only blanks are dropped, so a final `;` is
//! optional.
use crate::buffer::joined;
use crate::dispatch::{split_semicolons, split_statements};
use crate::text::{chars_of, push_all, push_char};
use vstd::prelude::*;

verus! {

broadcast use vstd::seq_lib::group_filter_ensures, vstd::seq::Seq::lemma_filter_push;

/// A blank: space, tab, carriage return or line break.
pub open spec fn is_space(c: char) -> bool {
    c == ' ' || c == '\t' || c == '\r' || c == '\n'
}

/// Whether `s` holds blanks only.
pub open spec fn is_blank(s: Seq<char>) -> bool {
    forall|i: int| 0 <= i < s.len() ==> is_space(#[trigger] s[i])
}

/// Whether line `s` is a comment: `--` after leading blanks.
pub open spec fn is_comment(s: Seq<char>) -> bool {
    exists|k: int|
        #![trigger s[k]]
        0 <= k && k + 1 < s.len() && (forall|i: int| 0 <= i < k ==> is_space(#[trigger] s[i]))
            && s[k] == '-' && s[k + 1] == '-'
}

/// The lines of `source` that are not comments, each ended by a line break,
/// one after the other.
pub open spec fn script_text(source: Seq<Seq<char>>) -> Seq<char> {
    joined(
        source.filter(|l: Seq<char>| !is_comment(l)).map_values(|l: Seq<char>| l.push('\n')),
    )
}

/// The statements that a script of the lines `source` runs, in order.
pub open spec fn script_statements(source: Seq<Seq<char>>) -> Seq<Seq<char>> {
    split_semicolons(script_text(source)).filter(|p: Seq<char>| !is_blank(p))
}

fn is_comment_line(s: &Vec<char>) -> (r: bool)
    ensures
        r == is_comment(s@),
{
    let mut i: usize = 0;
    while i < s.len() && (s[i] == ' ' || s[i] == '\t' || s[i] == '\r' || s[i] == '\n')
        invariant
            i <= s@.len(),
            forall|j: int| 0 <= j < i ==> is_space(#[trigger] s@[j]),
        decreases s@.len() - i,
    {
        i = i + 1;
    }
    let r = i < s.len() && i + 1 < s.len() && s[i] == '-' && s[i + 1] == '-';
    proof {
        if !r {
            assert forall|k: int|
                0 <= k && k + 1 < s@.len() && (forall|j: int|
                    0 <= j < k ==> is_space(#[trigger] s@[j])) implies !(#[trigger] s@[k] == '-'
                && s@[k + 1] == '-') by {
                if k < i {
                    assert(is_space(s@[k]));
                } else if k > i {
                    assert(is_space(s@[i as int]));
                }
            }
        } else {
            assert(s@[i as int] == '-');
        }
    }
    r
}

fn is_blank_text(s: &Vec<char>) -> (r: bool)
    ensures
        r == is_blank(s@),
{
    let mut i: usize = 0;
    while i < s.len()
        invariant
            i <= s@.len(),
            forall|j: int| 0 <= j < i ==> is_space(#[trigger] s@[j]),
        decreases s@.len() - i,
    {
        if !(s[i] == ' ' || s[i] == '\t' || s[i] == '\r' || s[i] == '\n') {
            assert(!is_space(s@[i as int]));
            return false;
        }
        i = i + 1;
    }
    true
}

/// The statements of a script file given as its lines: comment lines are
/// left out, the rest is cut at `;`, and blank pieces are dropped.
pub fn batch_statements(source_lines: &Vec<String>) -> (r: Vec<String>)
    ensures
        r@.map_values(|p: String| p@) == script_statements(
            source_lines@.map_values(|s: String| s@),
        ),
{
    let ghost source = source_lines@.map_values(|s: String| s@);
    let ghost keep = |l: Seq<char>| !is_comment(l);
    let ghost ended = |l: Seq<char>| l.push('\n');
    let mut script = String::new();
    let mut i: usize = 0;
    assert(source.subrange(0, 0).filter(keep) =~= Seq::<Seq<char>>::empty()) by {
        reveal_with_fuel(Seq::filter, 1);
    }
    assert(source.subrange(0, 0).filter(keep).map_values(ended) =~= Seq::<Seq<char>>::empty());
    while i < source_lines.len()
        invariant
            i <= source_lines@.len(),
            source == source_lines@.map_values(|s: String| s@),
            keep == (|l: Seq<char>| !is_comment(l)),
            ended == (|l: Seq<char>| l.push('\n')),
            script@ == joined(source.subrange(0, i as int).filter(keep).map_values(ended)),
        decreases source_lines@.len() - i,
    {
        let line = chars_of(source_lines[i].as_str());
        let ghost before = source.subrange(0, i as int).filter(keep);
        assert(source.subrange(0, i + 1) =~= source.subrange(0, i as int).push(line@));
        if !is_comment_line(&line) {
            push_all(&mut script, &line);
            push_char(&mut script, '\n');
            let ghost after = before.push(line@);
            assert(after.map_values(ended) =~= before.map_values(ended).push(line@.push('\n')));
            assert(after.map_values(ended).drop_last() =~= before.map_values(ended));
        }
        i = i + 1;
    }
    assert(source.subrange(0, i as int) =~= source);
    let pieces = split_statements(script.as_str());
    let ghost all = pieces@.map_values(|p: String| p@);
    let ghost nonblank = |p: Seq<char>| !is_blank(p);
    let mut out: Vec<String> = Vec::new();
    let mut j: usize = 0;
    assert(all.subrange(0, 0).filter(nonblank) =~= Seq::<Seq<char>>::empty()) by {
        reveal_with_fuel(Seq::filter, 1);
    }
    while j < pieces.len()
        invariant
            j <= pieces@.len(),
            all == pieces@.map_values(|p: String| p@),
            nonblank == (|p: Seq<char>| !is_blank(p)),
            out@.map_values(|p: String| p@) == all.subrange(0, j as int).filter(nonblank),
        decreases pieces@.len() - j,
    {
        let piece = chars_of(pieces[j].as_str());
        assert(all.subrange(0, j + 1) =~= all.subrange(0, j as int).push(piece@));
        if !is_blank_text(&piece) {
            let ghost prev = out@.map_values(|p: String| p@);
            let kept = pieces[j].clone();
            out.push(kept);
            assert(out@.map_values(|p: String| p@) =~= prev.push(piece@));
        }
        j = j + 1;
    }
    assert(all.subrange(0, j as int) =~= all);
    out
}

} // verus!
