//! The text buffer: an ordered list of lines and a cursor whose column is
//! counted in display columns.
use crate::text::{
    chars_of, column_index, column_to_index, display_width, push_all, string_of, width_of,
};
use vstd::prelude::*;

verus! {

/// How many rows above the cursor row the editor shows.
pub const MAX_EDITOR_LINES: usize = 17;

/// All lines of a document, one after the other.
pub open spec fn joined(lines: Seq<Seq<char>>) -> Seq<char>
    decreases lines.len(),
{
    if lines.len() == 0 {
        Seq::empty()
    } else {
        joined(lines.drop_last()) + lines.last()
    }
}

/// `text` with `ins` placed before position `ix`.
pub open spec fn insert_at(text: Seq<char>, ix: int, ins: Seq<char>) -> Seq<char> {
    text.subrange(0, ix) + ins + text.subrange(ix, text.len() as int)
}

/// What typing `c` places in a line: four spaces for a tab, else `c` itself.
pub open spec fn typed(c: char) -> Seq<char> {
    if c == '\t' {
        seq![' ', ' ', ' ', ' ']
    } else {
        seq![c]
    }
}

/// `lines` with row `row` cut before position `ix`: the head, with a line
/// terminator, stays in place and the tail becomes the next row.
pub open spec fn split_row(lines: Seq<Seq<char>>, row: int, ix: int) -> Seq<Seq<char>> {
    let t = lines[row];
    lines.subrange(0, row) + seq![t.subrange(0, ix).push('\n'), t.subrange(ix, t.len() as int)]
        + lines.subrange(row + 1, lines.len() as int)
}

/// `a` if it is at most `b`, else `b`.
pub open spec fn min_nat(a: nat, b: nat) -> nat {
    if a <= b {
        a
    } else {
        b
    }
}

/// Rows shown for a cursor on row `row` of a document of `len` rows: the
/// first one, and one past the last.
pub open spec fn visible_window(row: nat, len: nat) -> (nat, nat) {
    let start: nat = if row <= MAX_EDITOR_LINES {
        0
    } else {
        (row - MAX_EDITOR_LINES) as nat
    };
    (start, min_nat((start + MAX_EDITOR_LINES + 1) as nat, len))
}

proof fn lemma_joined_extend(lines: Seq<Seq<char>>, a: int, i: int)
    requires
        0 <= a <= i < lines.len(),
    ensures
        joined(lines.subrange(a, i + 1)) == joined(lines.subrange(a, i)) + lines[i],
{
    let t = lines.subrange(a, i + 1);
    assert(t.drop_last() =~= lines.subrange(a, i));
}

/// `t` without its final line terminator, if it ends with one.
pub open spec fn unterminated(t: Seq<char>) -> Seq<char> {
    if t.len() > 0 && t.last() == '\n' {
        t.drop_last()
    } else {
        t
    }
}

/// A cleared buffer cannot be told from a new one: the same rows, the same
/// cursor, the invariant, and an empty text.
pub proof fn lemma_cleared_is_fresh(cleared: Input, fresh: Input)
    requires
        cleared.is_fresh(),
        fresh.is_fresh(),
    ensures
        cleared.same_as(&fresh),
        cleared.wf(),
        joined(cleared.text_lines()) == Seq::<char>::empty(),
{
    assert(cleared.text_lines() =~= fresh.text_lines());
}

/// `f` is `o` after the cursor moved one row up: the column stays where the
/// new row is wide enough, else goes to its end. Nothing moves on the first
/// row.
pub open spec fn moved_up(o: Input, f: Input) -> bool {
    &&& f.text_lines() == o.text_lines()
    &&& if o.current_row == 0 {
        f.same_as(&o)
    } else {
        &&& f.current_row == o.current_row - 1
        &&& f.cursor_column == min_nat(
            o.cursor_column as nat,
            display_width(o.text_lines()[o.current_row - 1]),
        )
    }
}

/// `f` is `o` after the cursor moved one row down: the column stays where
/// the new row is wide enough, else goes to its end. Nothing moves on the
/// last row.
pub open spec fn moved_down(o: Input, f: Input) -> bool {
    &&& f.text_lines() == o.text_lines()
    &&& if o.current_row + 1 >= o.lines@.len() {
        f.same_as(&o)
    } else {
        &&& f.current_row == o.current_row + 1
        &&& f.cursor_column == min_nat(
            o.cursor_column as nat,
            display_width(o.text_lines()[o.current_row + 1]),
        )
    }
}

/// `f` is `o` after the cursor moved one column right, or from the end of a
/// row that is not the last to the start of the next one.
pub open spec fn moved_right(o: Input, f: Input) -> bool {
    &&& f.text_lines() == o.text_lines()
    &&& if o.lines@.len() == 0 {
        f.same_as(&o)
    } else if o.cursor_column < display_width(o.row_text()) {
        f.current_row == o.current_row && f.cursor_column == o.cursor_column + 1
    } else if o.current_row + 1 < o.lines@.len() {
        f.current_row == o.current_row + 1 && f.cursor_column == 0
    } else {
        f.same_as(&o)
    }
}

/// `f` is `o` after the cursor moved one column left, or from the start of a
/// row that is not the first to the end of the previous one.
pub open spec fn moved_left(o: Input, f: Input) -> bool {
    &&& f.text_lines() == o.text_lines()
    &&& if o.cursor_column > 0 {
        f.current_row == o.current_row && f.cursor_column == o.cursor_column - 1
    } else if o.current_row > 0 {
        &&& f.current_row == o.current_row - 1
        &&& f.cursor_column == display_width(o.text_lines()[o.current_row - 1])
    } else {
        f.same_as(&o)
    }
}

/// `f` is `o` after typing `c` at the cursor: a line break splits the row at
/// the cursor and moves to the start of the new row; anything else goes in
/// before the cursor position (a tab as four spaces) and the cursor moves
/// past it, as far as the row is wide. An empty document first gets an empty
/// row.
pub open spec fn typed_into(o: Input, f: Input, c: char) -> bool {
    let base = if o.lines@.len() == 0 {
        seq![Seq::<char>::empty()]
    } else {
        o.text_lines()
    };
    let row = o.current_row as int;
    let ix = column_index(base[row], o.cursor_column as nat) as int;
    if c == '\n' {
        &&& f.text_lines() == split_row(base, row, ix)
        &&& f.current_row == row + 1
        &&& f.cursor_column == 0
    } else {
        let t = insert_at(base[row], ix, typed(c));
        &&& f.text_lines() == base.update(row, t)
        &&& f.current_row == row
        &&& f.cursor_column == min_nat((o.cursor_column + typed(c).len()) as nat, display_width(t))
    }
}

/// `f` is `o` after a backspace. On an empty row that is not the first, the
/// row goes away, the row above loses its terminator and the cursor goes to
/// its end. Elsewhere the character before the cursor goes and the cursor
/// moves one column left, as far as the row is wide. Nothing happens with
/// nothing before the cursor.
pub open spec fn backspaced(o: Input, f: Input) -> bool {
    let row = o.current_row as int;
    if o.lines@.len() == 0 {
        f.same_as(&o)
    } else if o.row_text().len() == 0 {
        if row == 0 {
            f.same_as(&o)
        } else {
            let merged = unterminated(o.text_lines()[row - 1]);
            &&& f.text_lines() == o.text_lines().remove(row).update(row - 1, merged)
            &&& f.current_row == row - 1
            &&& f.cursor_column == display_width(merged)
        }
    } else {
        let ix = column_index(o.row_text(), o.cursor_column as nat) as int;
        if ix == 0 {
            f.same_as(&o)
        } else {
            let t = o.row_text().remove(ix - 1);
            &&& f.text_lines() == o.text_lines().update(row, t)
            &&& f.current_row == row
            &&& f.cursor_column == min_nat((o.cursor_column - 1) as nat, display_width(t))
        }
    }
}

/// One line of the document.
pub struct Line {
    pub text: Vec<char>,
}

impl View for Line {
    type V = Seq<char>;

    open spec fn view(&self) -> Seq<char> {
        self.text@
    }
}

impl Default for Line {
    fn default() -> (r: Line)
        ensures
            r@ == Seq::<char>::empty(),
    {
        Line { text: Vec::new() }
    }
}

impl Line {
    /// A line holding the characters of `text`.
    pub fn new(text: String) -> (r: Line)
        ensures
            r@ == text@,
    {
        Line { text: chars_of(text.as_str()) }
    }

    /// The line's characters as a `String`.
    pub fn as_string(&self) -> (r: String)
        ensures
            r@ == self@,
    {
        string_of(&self.text)
    }
}

/// The lines of the editor and the cursor over them.
pub struct Input {
    pub lines: Vec<Line>,
    /// Row of the cursor.
    pub current_row: usize,
    /// Column of the cursor, in display columns.
    pub cursor_column: usize,
}

impl Default for Input {
    fn default() -> (r: Input)
        ensures
            r.wf(),
            r.is_fresh(),
    {
        Input { lines: Vec::new(), current_row: 0, cursor_column: 0 }
    }
}

impl Input {
    /// The document as a sequence of lines.
    pub open spec fn text_lines(&self) -> Seq<Seq<char>> {
        self.lines@.map_values(|l: Line| l@)
    }

    /// The line under the cursor.
    pub open spec fn row_text(&self) -> Seq<char> {
        self.text_lines()[self.current_row as int]
    }

    /// The cursor stands on a line of the document and within its width; an
    /// empty document has the cursor at the origin.
    pub open spec fn wf(&self) -> bool {
        if self.lines@.len() == 0 {
            self.current_row == 0 && self.cursor_column == 0
        } else {
            &&& self.current_row < self.lines@.len()
            &&& self.cursor_column <= display_width(self.row_text())
        }
    }

    /// The state of a new buffer: no rows, cursor at the origin.
    pub open spec fn is_fresh(&self) -> bool {
        &&& self.text_lines().len() == 0
        &&& self.current_row == 0
        &&& self.cursor_column == 0
    }

    /// The cursor row and column are those of `other`, and so is the text.
    pub open spec fn same_as(&self, other: &Input) -> bool {
        &&& self.text_lines() == other.text_lines()
        &&& self.current_row == other.current_row
        &&& self.cursor_column == other.cursor_column
    }

    /// The whole document as one text.
    pub fn combine_lines(&self) -> (r: String)
        ensures
            r@ == joined(self.text_lines()),
    {
        let r = self.combine_range(0, self.lines.len());
        assert(self.text_lines().subrange(0, self.lines@.len() as int) =~= self.text_lines());
        r
    }

    /// The rows in view for the cursor row, as one text.
    pub fn combine_visible_lines(&self) -> (r: String)
        requires
            self.wf(),
        ensures
            r@ == joined(
                self.text_lines().subrange(
                    visible_window(self.current_row as nat, self.lines@.len()).0 as int,
                    visible_window(self.current_row as nat, self.lines@.len()).1 as int,
                ),
            ),
    {
        let start: usize = if self.current_row <= MAX_EDITOR_LINES {
            0
        } else {
            self.current_row - MAX_EDITOR_LINES
        };
        let end: usize = if self.lines.len() - start <= MAX_EDITOR_LINES + 1 {
            self.lines.len()
        } else {
            start + MAX_EDITOR_LINES + 1
        };
        self.combine_range(start, end)
    }

    fn combine_range(&self, start: usize, end: usize) -> (r: String)
        requires
            start <= end <= self.lines@.len(),
        ensures
            r@ == joined(self.text_lines().subrange(start as int, end as int)),
    {
        let mut s = String::new();
        let mut i: usize = start;
        assert(self.text_lines().subrange(start as int, start as int) =~= Seq::empty());
        while i < end
            invariant
                start <= i <= end <= self.lines@.len(),
                s@ == joined(self.text_lines().subrange(start as int, i as int)),
            decreases end - i,
        {
            push_all(&mut s, &self.lines[i].text);
            proof {
                lemma_joined_extend(self.text_lines(), start as int, i as int);
            }
            i = i + 1;
        }
        s
    }

    /// Empties the document and puts the cursor at the origin.
    pub fn clear(&mut self)
        ensures
            final(self).wf(),
            final(self).is_fresh(),
    {
        self.lines = Vec::new();
        self.current_row = 0;
        self.cursor_column = 0;
    }

    /// Moves the cursor one row up, keeping its column where the new row is
    /// wide enough.
    pub fn up_row(&mut self)
        requires
            old(self).wf(),
        ensures
            final(self).wf(),
            moved_up(*old(self), *final(self)),
    {
        if self.current_row > 0 {
            self.current_row = self.current_row - 1;
            let w = width_of(&self.lines[self.current_row].text);
            if w < self.cursor_column {
                self.cursor_column = w;
            }
        }
    }

    /// Moves the cursor one row down, keeping its column where the new row is
    /// wide enough.
    pub fn down_row(&mut self)
        requires
            old(self).wf(),
        ensures
            final(self).wf(),
            moved_down(*old(self), *final(self)),
    {
        let n = self.lines.len();
        if self.current_row + 1 < n {
            self.current_row = self.current_row + 1;
            let w = width_of(&self.lines[self.current_row].text);
            if w < self.cursor_column {
                self.cursor_column = w;
            }
        }
    }

    /// Moves the cursor one column right; past the end of a row that is not
    /// the last, to the start of the next row.
    pub fn next_char(&mut self)
        requires
            old(self).wf(),
        ensures
            final(self).wf(),
            moved_right(*old(self), *final(self)),
    {
        if self.lines.len() == 0 {
            return;
        }
        let w = width_of(&self.lines[self.current_row].text);
        if self.cursor_column < w {
            self.cursor_column = self.cursor_column + 1;
        } else if self.current_row + 1 < self.lines.len() {
            self.current_row = self.current_row + 1;
            self.cursor_column = 0;
        }
    }

    /// Moves the cursor one column left; from the start of a row that is not
    /// the first, to the end of the previous row.
    pub fn previous_char(&mut self)
        requires
            old(self).wf(),
        ensures
            final(self).wf(),
            moved_left(*old(self), *final(self)),
    {
        if self.cursor_column > 0 {
            self.cursor_column = self.cursor_column - 1;
        } else if self.current_row > 0 {
            self.current_row = self.current_row - 1;
            self.cursor_column = width_of(&self.lines[self.current_row].text);
        }
    }

    /// Puts `text` in place of row `row`, handing back what was there.
    fn replace_row(&mut self, row: usize, text: Vec<char>) -> (prev: Vec<char>)
        requires
            row < old(self).lines@.len(),
        ensures
            prev@ == old(self).text_lines()[row as int],
            final(self).text_lines() == old(self).text_lines().update(row as int, text@),
            final(self).lines@.len() == old(self).lines@.len(),
            final(self).current_row == old(self).current_row,
            final(self).cursor_column == old(self).cursor_column,
    {
        let prev = self.lines.remove(row);
        self.lines.insert(row, Line { text });
        assert(self.text_lines() =~= old(self).text_lines().update(row as int, text@));
        prev.text
    }

    /// Types `c` at the cursor: a line break splits the row, a tab puts four
    /// spaces, any other character goes in as it is. The cursor then moves
    /// past what was typed, as far as the row is wide. An empty document
    /// first gets an empty row.
    pub fn append_char(&mut self, c: char)
        requires
            old(self).wf(),
        ensures
            final(self).wf(),
            typed_into(*old(self), *final(self), c),
    {
        if self.lines.len() == 0 {
            self.lines.push(Line::default());
            assert(self.text_lines() =~= seq![Seq::<char>::empty()]);
        }
        if c == '\n' {
            self.new_line();
            return;
        }
        let row = self.current_row;
        let ix = column_to_index(&self.lines[row].text, self.cursor_column);
        let ghost base = self.text_lines();
        let mut t = self.replace_row(row, Vec::new());
        let ghost before = t@;
        let mut tail = t.split_off(ix);
        let step: usize = if c == '\t' {
            t.push(' ');
            t.push(' ');
            t.push(' ');
            t.push(' ');
            4
        } else {
            t.push(c);
            1
        };
        t.append(&mut tail);
        assert(t@ =~= insert_at(before, ix as int, typed(c)));
        let w = width_of(&t);
        let ghost typed_row = t@;
        self.replace_row(row, t);
        assert(self.text_lines() =~= base.update(row as int, typed_row));
        let col = self.cursor_column;
        self.cursor_column = if col <= w && w - col >= step {
            col + step
        } else {
            w
        };
    }

    /// Types a tab: four spaces at the cursor.
    pub fn tab(&mut self)
        requires
            old(self).wf(),
        ensures
            final(self).wf(),
            typed_into(*old(self), *final(self), '\t'),
    {
        self.append_char('\t');
    }

    /// Breaks the cursor row at the cursor: the text before it keeps the row
    /// and gets a terminator, the text after it becomes the next row, and the
    /// cursor goes to the start of that row.
    fn new_line(&mut self)
        requires
            old(self).wf(),
            old(self).lines@.len() > 0,
        ensures
            final(self).wf(),
            final(self).text_lines() == split_row(
                old(self).text_lines(),
                old(self).current_row as int,
                column_index(old(self).row_text(), old(self).cursor_column as nat) as int,
            ),
            final(self).current_row == old(self).current_row + 1,
            final(self).cursor_column == 0,
    {
        let n = self.lines.len();
        let row = self.current_row;
        let ix = column_to_index(&self.lines[row].text, self.cursor_column);
        let ghost lines0 = self.text_lines();
        let mut head = self.replace_row(row, Vec::new());
        let tail = head.split_off(ix);
        head.push('\n');
        let ghost h = head@;
        self.replace_row(row, head);
        let ghost mid = self.text_lines();
        self.lines.insert(row + 1, Line { text: tail });
        assert(self.text_lines() =~= mid.insert(row + 1, tail@));
        assert(mid == lines0.update(row as int, h));
        assert(h == lines0[row as int].subrange(0, ix as int).push('\n'));
        assert(tail@ == lines0[row as int].subrange(ix as int, lines0[row as int].len() as int));
        assert(lines0.update(row as int, h).insert(row + 1, tail@) =~= split_row(
            lines0,
            row as int,
            ix as int,
        ));
        self.current_row = row + 1;
        self.cursor_column = 0;
    }

    /// Takes the last character off the cursor row, if it has one; the cursor
    /// stays within the row.
    pub fn pop(&mut self) -> (r: Option<char>)
        requires
            old(self).wf(),
        ensures
            final(self).wf(),
            ({
                let o = old(self);
                if o.lines@.len() == 0 || o.row_text().len() == 0 {
                    r == None::<char> && final(self).same_as(o)
                } else {
                    let t = o.row_text().drop_last();
                    &&& r == Some(o.row_text().last())
                    &&& final(self).text_lines() == o.text_lines().update(o.current_row as int, t)
                    &&& final(self).current_row == o.current_row
                    &&& final(self).cursor_column == min_nat(o.cursor_column as nat, display_width(t))
                }
            }),
    {
        if self.lines.len() == 0 {
            return None;
        }
        let row = self.current_row;
        let mut t = self.replace_row(row, Vec::new());
        let r = t.pop();
        let w = width_of(&t);
        self.replace_row(row, t);
        if w < self.cursor_column {
            self.cursor_column = w;
        }
        proof {
            if old(self).row_text().len() == 0 {
                assert(self.text_lines() =~= old(self).text_lines());
            }
        }
        r
    }

    /// Deletes backwards. On an empty row that is not the first, the row goes
    /// away, the row above loses its terminator and the cursor goes to its
    /// end. Elsewhere the character before the cursor goes and the cursor
    /// moves one column left, as far as the row is wide. Nothing happens with
    /// nothing before the cursor.
    pub fn backspace(&mut self)
        requires
            old(self).wf(),
        ensures
            final(self).wf(),
            backspaced(*old(self), *final(self)),
    {
        if self.lines.len() == 0 {
            return;
        }
        let row = self.current_row;
        if self.lines[row].text.len() == 0 {
            if row == 0 {
                return;
            }
            let ghost lines0 = self.text_lines();
            self.lines.remove(row);
            assert(self.text_lines() =~= lines0.remove(row as int));
            self.current_row = row - 1;
            let mut prev = self.replace_row(row - 1, Vec::new());
            let n = prev.len();
            if n > 0 && prev[n - 1] == '\n' {
                prev.pop();
            }
            let w = width_of(&prev);
            let ghost merged = prev@;
            self.replace_row(row - 1, prev);
            assert(self.text_lines() =~= lines0.remove(row as int).update(row - 1, merged));
            self.cursor_column = w;
        } else {
            let ix = column_to_index(&self.lines[row].text, self.cursor_column);
            if ix == 0 {
                return;
            }
            let ghost lines0 = self.text_lines();
            let mut t = self.replace_row(row, Vec::new());
            t.remove(ix - 1);
            let w = width_of(&t);
            let ghost shorter = t@;
            self.replace_row(row, t);
            assert(self.text_lines() =~= lines0.update(row as int, shorter));
            let col = self.cursor_column - 1;
            self.cursor_column = if col <= w {
                col
            } else {
                w
            };
        }
    }
}

} // verus!
