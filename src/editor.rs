//! The editing session: one buffer, whether the statement in it has been
//! terminated, and the queries that have completed.
use crate::buffer::{joined, min_nat, Input, Line, MAX_EDITOR_LINES};
use crate::query::Query;
use crate::text::{chars_of, string_of};
use vstd::prelude::*;

verus! {

/// `s` with every tab replaced by four spaces.
pub open spec fn expand_tabs(s: Seq<char>) -> Seq<char>
    decreases s.len(),
{
    if s.len() == 0 {
        Seq::empty()
    } else {
        expand_tabs(s.drop_last()) + if s.last() == '\t' {
            seq![' ', ' ', ' ', ' ']
        } else {
            seq![s.last()]
        }
    }
}

/// How one line of a loaded document is kept: tabs expanded, terminator
/// added.
pub open spec fn loaded_line(s: Seq<char>) -> Seq<char> {
    expand_tabs(s).push('\n')
}

/// The rows that loading `source` gives.
pub open spec fn loaded_lines(source: Seq<Seq<char>>) -> Seq<Seq<char>> {
    source.map_values(|s: Seq<char>| loaded_line(s))
}

/// The document that the lines of `source` make, each ended by a terminator.
pub open spec fn document(source: Seq<Seq<char>>) -> Seq<char> {
    joined(source.map_values(|s: Seq<char>| s.push('\n')))
}

proof fn lemma_expand_tabs_concat(a: Seq<char>, b: Seq<char>)
    ensures
        expand_tabs(a + b) == expand_tabs(a) + expand_tabs(b),
    decreases b.len(),
{
    if b.len() == 0 {
        assert(a + b =~= a);
        assert(expand_tabs(a) + expand_tabs(b) =~= expand_tabs(a));
    } else {
        assert((a + b).drop_last() =~= a + b.drop_last());
        lemma_expand_tabs_concat(a, b.drop_last());
    }
}

/// Loading a document and joining its rows again gives the document back,
/// with its tabs expanded to four spaces and every line ended by a
/// terminator.
pub proof fn lemma_load_round_trip(source: Seq<Seq<char>>)
    ensures
        joined(loaded_lines(source)) == expand_tabs(document(source)),
    decreases source.len(),
{
    if source.len() == 0 {
        assert(loaded_lines(source) =~= Seq::<Seq<char>>::empty());
        assert(source.map_values(|s: Seq<char>| s.push('\n')) =~= Seq::<Seq<char>>::empty());
    } else {
        let init = source.drop_last();
        let l = source.last();
        lemma_load_round_trip(init);
        assert(loaded_lines(source).drop_last() =~= loaded_lines(init));
        let ended = source.map_values(|s: Seq<char>| s.push('\n'));
        assert(ended.drop_last() =~= init.map_values(|s: Seq<char>| s.push('\n')));
        assert(document(source) == document(init) + l.push('\n'));
        lemma_expand_tabs_concat(document(init), l.push('\n'));
        assert(l.push('\n').drop_last() =~= l);
        assert(expand_tabs(l.push('\n')) =~= loaded_line(l));
    }
}

/// The editor and its state.
pub struct Editor {
    /// The text being edited.
    pub input: Input,
    /// Whether the statement was ended with `;`.
    pub sql_terminated: bool,
    /// Queries that have completed, oldest first.
    pub history: Vec<Query>,
}

impl Default for Editor {
    fn default() -> (r: Editor)
        ensures
            r.wf(),
            r.input.text_lines().len() == 0,
            r.input.current_row == 0,
            r.input.cursor_column == 0,
            !r.sql_terminated,
            r.history@.len() == 0,
    {
        Editor { input: Input::default(), history: Vec::new(), sql_terminated: false }
    }
}

/// `s` with tabs expanded to four spaces.
fn expand_line_tabs(s: &Vec<char>) -> (r: Vec<char>)
    ensures
        r@ == expand_tabs(s@),
{
    let mut out: Vec<char> = Vec::new();
    let mut i: usize = 0;
    while i < s.len()
        invariant
            i <= s@.len(),
            out@ == expand_tabs(s@.subrange(0, i as int)),
        decreases s@.len() - i,
    {
        let ghost before = s@.subrange(0, i as int);
        assert(s@.subrange(0, i + 1).drop_last() =~= before);
        if s[i] == '\t' {
            out.push(' ');
            out.push(' ');
            out.push(' ');
            out.push(' ');
        } else {
            out.push(s[i]);
        }
        i = i + 1;
        assert(out@ =~= expand_tabs(s@.subrange(0, i as int)));
    }
    assert(s@.subrange(0, i as int) =~= s@);
    out
}

impl Editor {
    /// The buffer's invariant holds.
    pub open spec fn wf(&self) -> bool {
        self.input.wf()
    }

    /// The cursor row on screen: the buffer row, as far as the view reaches.
    pub fn get_cursor_row(&self) -> (r: usize)
        ensures
            r as nat == min_nat(self.input.current_row as nat, MAX_EDITOR_LINES as nat),
    {
        if self.input.current_row < MAX_EDITOR_LINES {
            self.input.current_row
        } else {
            MAX_EDITOR_LINES
        }
    }

    /// The cursor column, in display columns.
    pub fn get_cursor_column(&self) -> (r: usize)
        ensures
            r == self.input.cursor_column,
    {
        self.input.cursor_column
    }

    /// Replaces the document with the given lines, read from a file: tabs
    /// become four spaces, each line gets a terminator, and the cursor goes
    /// to the origin.
    pub fn load_file(&mut self, source_lines: &Vec<String>)
        ensures
            final(self).wf(),
            final(self).input.text_lines() == loaded_lines(source_lines@.map_values(|s: String| s@)),
            final(self).input.current_row == 0,
            final(self).input.cursor_column == 0,
            final(self).sql_terminated == old(self).sql_terminated,
            final(self).history@ == old(self).history@,
    {
        let ghost source = source_lines@.map_values(|s: String| s@);
        let mut lines: Vec<Line> = Vec::new();
        let mut i: usize = 0;
        while i < source_lines.len()
            invariant
                i <= source_lines@.len(),
                source == source_lines@.map_values(|s: String| s@),
                lines@.map_values(|l: Line| l@) == loaded_lines(source.subrange(0, i as int)),
            decreases source_lines@.len() - i,
        {
            let mut text = expand_line_tabs(&chars_of(source_lines[i].as_str()));
            text.push('\n');
            assert(text@ == loaded_line(source[i as int]));
            let ghost prev = lines@;
            let ghost t = text@;
            lines.push(Line { text });
            assert(lines@.map_values(|l: Line| l@) =~= prev.map_values(|l: Line| l@).push(t));
            assert(loaded_lines(source.subrange(0, i + 1)) =~= loaded_lines(
                source.subrange(0, i as int),
            ).push(t));
            i = i + 1;
        }
        assert(source.subrange(0, i as int) =~= source);
        self.input = Input { lines, current_row: 0, cursor_column: 0 };
    }

    /// The whole document, for submission.
    pub fn text(&self) -> (r: String)
        ensures
            r@ == joined(self.input.text_lines()),
    {
        self.input.combine_lines()
    }

    /// Adds a completed query to the history.
    pub fn record(&mut self, query: Query)
        ensures
            final(self).history@ == old(self).history@.push(query),
            final(self).input == old(self).input,
            final(self).sql_terminated == old(self).sql_terminated,
    {
        self.history.push(query);
    }
}

} // verus!
