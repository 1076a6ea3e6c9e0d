//! The text buffer: an ordered, never empty sequence of lines and a cursor
//! that always stands on a line, at or before that line's end.

use crate::text::{initial_lines, join_lines, join_text, lines_to_strings, rows, split_text, string_rows};
use vstd::prelude::*;

verus! {

/// What a buffer holds: its lines, each a sequence of characters, and the
/// cursor as a line index and a character offset into that line.
pub struct BufferView {
    pub lines: Seq<Seq<char>>,
    pub row: nat,
    pub col: nat,
}

/// The smaller of two offsets.
pub open spec fn smaller(a: nat, b: nat) -> nat {
    if a <= b {
        a
    } else {
        b
    }
}

impl BufferView {
    /// The cursor stands on a line, at or before its end. A buffer with a
    /// cursor on a line has at least one line.
    pub open spec fn wf(self) -> bool {
        &&& self.row < self.lines.len()
        &&& self.col <= self.lines[self.row as int].len()
    }

    /// The line that the cursor stands on.
    pub open spec fn line(self) -> Seq<char> {
        self.lines[self.row as int]
    }

    /// The buffer with the cursor's line replaced.
    pub open spec fn with_line(self, line: Seq<char>) -> BufferView {
        BufferView { lines: self.lines.update(self.row as int, line), ..self }
    }

    /// A buffer that starts on `text`: its lines, the cursor at the start.
    pub open spec fn start(text: Seq<char>) -> BufferView {
        BufferView { lines: initial_lines(text), row: 0, col: 0 }
    }

    /// One column to the left; stays at the start of the line.
    pub open spec fn move_left(self) -> BufferView {
        if self.col > 0 {
            BufferView { col: (self.col - 1) as nat, ..self }
        } else {
            self
        }
    }

    /// One column to the right; stays at the end of the line.
    pub open spec fn move_right(self) -> BufferView {
        if self.col < self.line().len() {
            BufferView { col: self.col + 1, ..self }
        } else {
            self
        }
    }

    /// One line up; a shorter line pulls the cursor left to its end.
    pub open spec fn move_up(self) -> BufferView {
        if self.row > 0 {
            let row = (self.row - 1) as nat;
            BufferView { row, col: smaller(self.col, self.lines[row as int].len()), ..self }
        } else {
            self
        }
    }

    /// One line down; a shorter line pulls the cursor left to its end.
    pub open spec fn move_down(self) -> BufferView {
        if self.row + 1 < self.lines.len() {
            let row = self.row + 1;
            BufferView { row, col: smaller(self.col, self.lines[row as int].len()), ..self }
        } else {
            self
        }
    }

    /// One column to the left, and from the start of a line to the end of
    /// the line above.
    pub open spec fn move_left_wrapping(self) -> BufferView {
        if self.col > 0 {
            BufferView { col: (self.col - 1) as nat, ..self }
        } else if self.row > 0 {
            let row = (self.row - 1) as nat;
            BufferView { row, col: self.lines[row as int].len(), ..self }
        } else {
            self
        }
    }

    /// One column to the right, and from the end of a line to the start of
    /// the line below.
    pub open spec fn move_right_wrapping(self) -> BufferView {
        if self.col < self.line().len() {
            BufferView { col: self.col + 1, ..self }
        } else if self.row + 1 < self.lines.len() {
            BufferView { row: self.row + 1, col: 0, ..self }
        } else {
            self
        }
    }

    /// `c` put in at the cursor, the cursor behind it.
    pub open spec fn insert_char(self, c: char) -> BufferView {
        BufferView { col: self.col + 1, ..self.with_line(self.line().insert(self.col as int, c)) }
    }

    /// The cursor's line cut in two at the cursor; the cursor at the start
    /// of the second part, which is a new line directly below.
    pub open spec fn insert_newline(self) -> BufferView {
        BufferView {
            lines: self.lines.update(self.row as int, self.line().take(self.col as int)).insert(
                self.row as int + 1,
                self.line().skip(self.col as int),
            ),
            row: self.row + 1,
            col: 0,
        }
    }

    /// An empty line put in below the cursor's line, the cursor on it.
    pub open spec fn open_line_below(self) -> BufferView {
        BufferView {
            lines: self.lines.insert(self.row as int + 1, Seq::empty()),
            row: self.row + 1,
            col: 0,
        }
    }

    /// The character at the cursor taken out; nothing at the end of a line.
    pub open spec fn delete_char_at_cursor(self) -> BufferView {
        if self.col < self.line().len() {
            self.with_line(self.line().remove(self.col as int))
        } else {
            self
        }
    }

    /// The cursor's line taken out, the cursor on the line that follows it,
    /// or on the new last line where there is none, pulled left to that
    /// line's end. The only line of a buffer is emptied instead.
    pub open spec fn delete_line(self) -> BufferView {
        if self.lines.len() > 1 {
            let lines = self.lines.remove(self.row as int);
            let row = if self.row >= lines.len() {
                (lines.len() - 1) as nat
            } else {
                self.row
            };
            BufferView { lines, row, col: smaller(self.col, lines[row as int].len()) }
        } else {
            BufferView { lines: seq![Seq::empty()], row: 0, col: 0 }
        }
    }

    /// The character before the cursor taken out, the cursor one to the
    /// left. At the start of a line that has a line above it, the line is
    /// moved to the end of that line and the cursor stands where the two
    /// meet. At the start of the buffer, nothing.
    pub open spec fn backspace(self) -> BufferView {
        if self.col > 0 {
            BufferView {
                col: (self.col - 1) as nat,
                ..self.with_line(self.line().remove(self.col - 1))
            }
        } else if self.row > 0 {
            let above = self.lines[self.row - 1];
            BufferView {
                lines: self.lines.remove(self.row as int).update(self.row - 1, above + self.line()),
                row: (self.row - 1) as nat,
                col: above.len(),
            }
        } else {
            self
        }
    }

    /// The whole text: the lines with a newline between each two.
    pub open spec fn text(self) -> Seq<char> {
        join_lines(self.lines)
    }
}

/// Lines of text with a cursor.
pub struct TextBuffer {
    lines: Vec<Vec<char>>,
    cursor_row: usize,
    cursor_col: usize,
}

impl View for TextBuffer {
    type V = BufferView;

    closed spec fn view(&self) -> BufferView {
        BufferView {
            lines: rows(self.lines@),
            row: self.cursor_row as nat,
            col: self.cursor_col as nat,
        }
    }
}

impl TextBuffer {
    /// The buffer's invariant: at least one line, and the cursor on a line,
    /// at or before its end.
    pub open spec fn wf(&self) -> bool {
        self@.wf()
    }

    /// A buffer on the lines of `content`, the cursor at the start. Empty
    /// content gives one empty line.
    pub fn from_text(content: &str) -> (buffer: TextBuffer)
        ensures
            buffer.wf(),
            buffer@ == BufferView::start(content@),
    {
        TextBuffer { lines: split_text(content), cursor_row: 0, cursor_col: 0 }
    }

    /// The number of lines, which is never zero.
    pub fn line_count(&self) -> (n: usize)
        requires
            self.wf(),
        ensures
            n == self@.lines.len(),
            n >= 1,
    {
        self.lines.len()
    }

    /// The index of the cursor's line.
    pub fn cursor_row(&self) -> (row: usize)
        requires
            self.wf(),
        ensures
            row == self@.row,
            row < self@.lines.len(),
    {
        self.cursor_row
    }

    /// The cursor's offset into its line, in characters.
    pub fn cursor_col(&self) -> (col: usize)
        requires
            self.wf(),
        ensures
            col == self@.col,
            col <= self@.line().len(),
    {
        self.cursor_col
    }

    /// The lines, each as a string of its own.
    pub fn lines(&self) -> (out: Vec<String>)
        ensures
            string_rows(out@) == self@.lines,
    {
        lines_to_strings(&self.lines)
    }

    /// The whole text, as it is written out when the edit is saved.
    pub fn join_text(&self) -> (text: String)
        ensures
            text@ == self@.text(),
    {
        join_text(&self.lines)
    }

    /// Moves the cursor one column to the left, if it is not at the start
    /// of its line.
    pub fn move_left(&mut self)
        requires
            old(self).wf(),
        ensures
            final(self).wf(),
            final(self)@ == old(self)@.move_left(),
    {
        if self.cursor_col > 0 {
            self.cursor_col = self.cursor_col - 1;
        }
    }

    /// Moves the cursor one column to the right, if it is not at the end
    /// of its line.
    pub fn move_right(&mut self)
        requires
            old(self).wf(),
        ensures
            final(self).wf(),
            final(self)@ == old(self)@.move_right(),
    {
        if self.cursor_col < self.lines[self.cursor_row].len() {
            self.cursor_col = self.cursor_col + 1;
        }
    }

    /// Moves the cursor one line up, if there is one, and pulls it left to
    /// the end of a shorter line.
    pub fn move_up(&mut self)
        requires
            old(self).wf(),
        ensures
            final(self).wf(),
            final(self)@ == old(self)@.move_up(),
    {
        if self.cursor_row > 0 {
            self.cursor_row = self.cursor_row - 1;
            let len: usize = self.lines[self.cursor_row].len();
            if self.cursor_col > len {
                self.cursor_col = len;
            }
        }
    }

    /// Moves the cursor one line down, if there is one, and pulls it left
    /// to the end of a shorter line.
    pub fn move_down(&mut self)
        requires
            old(self).wf(),
        ensures
            final(self).wf(),
            final(self)@ == old(self)@.move_down(),
    {
        if self.cursor_row < self.lines.len() - 1 {
            self.cursor_row = self.cursor_row + 1;
            let len: usize = self.lines[self.cursor_row].len();
            if self.cursor_col > len {
                self.cursor_col = len;
            }
        }
    }

    /// Moves the cursor one column to the left, and from the start of a
    /// line to the end of the line above.
    pub fn move_left_wrapping(&mut self)
        requires
            old(self).wf(),
        ensures
            final(self).wf(),
            final(self)@ == old(self)@.move_left_wrapping(),
    {
        if self.cursor_col > 0 {
            self.cursor_col = self.cursor_col - 1;
        } else if self.cursor_row > 0 {
            self.cursor_row = self.cursor_row - 1;
            self.cursor_col = self.lines[self.cursor_row].len();
        }
    }

    /// Moves the cursor one column to the right, and from the end of a line
    /// to the start of the line below.
    pub fn move_right_wrapping(&mut self)
        requires
            old(self).wf(),
        ensures
            final(self).wf(),
            final(self)@ == old(self)@.move_right_wrapping(),
    {
        if self.cursor_col < self.lines[self.cursor_row].len() {
            self.cursor_col = self.cursor_col + 1;
        } else if self.cursor_row < self.lines.len() - 1 {
            self.cursor_row = self.cursor_row + 1;
            self.cursor_col = 0;
        }
    }

    /// Puts `c` in at the cursor and moves the cursor behind it.
    pub fn insert_char(&mut self, c: char)
        requires
            old(self).wf(),
        ensures
            final(self).wf(),
            final(self)@ == old(self)@.insert_char(c),
    {
        let line = &mut self.lines[self.cursor_row];
        line.insert(self.cursor_col, c);
        let len: usize = self.lines[self.cursor_row].len();
        assert(self.cursor_col < len);
        self.cursor_col = self.cursor_col + 1;
        assert(self@.lines =~= old(self)@.insert_char(c).lines);
    }

    /// Cuts the cursor's line in two at the cursor and moves the cursor to
    /// the start of the second part, a new line directly below.
    pub fn insert_newline(&mut self)
        requires
            old(self).wf(),
        ensures
            final(self).wf(),
            final(self)@ == old(self)@.insert_newline(),
    {
        let line = &mut self.lines[self.cursor_row];
        let tail = line.split_off(self.cursor_col);
        let count: usize = self.lines.len();
        assert(self.cursor_row < count);
        self.lines.insert(self.cursor_row + 1, tail);
        self.cursor_row = self.cursor_row + 1;
        self.cursor_col = 0;
        assert(self@.lines =~= old(self)@.insert_newline().lines);
    }

    /// Puts an empty line in below the cursor's line and moves the cursor
    /// onto it.
    pub fn open_line_below(&mut self)
        requires
            old(self).wf(),
        ensures
            final(self).wf(),
            final(self)@ == old(self)@.open_line_below(),
    {
        let count: usize = self.lines.len();
        assert(self.cursor_row < count);
        self.lines.insert(self.cursor_row + 1, Vec::new());
        self.cursor_row = self.cursor_row + 1;
        self.cursor_col = 0;
        assert(self@.lines =~= old(self)@.open_line_below().lines);
    }

    /// Takes out the character at the cursor, if the cursor stands on one.
    pub fn delete_char_at_cursor(&mut self)
        requires
            old(self).wf(),
        ensures
            final(self).wf(),
            final(self)@ == old(self)@.delete_char_at_cursor(),
    {
        if self.cursor_col < self.lines[self.cursor_row].len() {
            let line = &mut self.lines[self.cursor_row];
            line.remove(self.cursor_col);
            assert(self@.lines =~= old(self)@.delete_char_at_cursor().lines);
        }
    }

    /// Takes out the cursor's line and keeps the cursor inside the buffer;
    /// empties the line instead where it is the only one.
    pub fn delete_line(&mut self)
        requires
            old(self).wf(),
        ensures
            final(self).wf(),
            final(self)@ == old(self)@.delete_line(),
    {
        if self.lines.len() > 1 {
            self.lines.remove(self.cursor_row);
            if self.cursor_row >= self.lines.len() {
                self.cursor_row = self.lines.len() - 1;
            }
            let len: usize = self.lines[self.cursor_row].len();
            if self.cursor_col > len {
                self.cursor_col = len;
            }
            assert(self@.lines =~= old(self)@.delete_line().lines);
        } else {
            let line = &mut self.lines[0];
            line.clear();
            self.cursor_col = 0;
            assert(self@.lines =~= old(self)@.delete_line().lines);
        }
    }

    /// Takes out the character before the cursor; at the start of a line,
    /// joins the line onto the line above.
    pub fn backspace(&mut self)
        requires
            old(self).wf(),
        ensures
            final(self).wf(),
            final(self)@ == old(self)@.backspace(),
    {
        if self.cursor_col > 0 {
            let line = &mut self.lines[self.cursor_row];
            line.remove(self.cursor_col - 1);
            self.cursor_col = self.cursor_col - 1;
            assert(self@.lines =~= old(self)@.backspace().lines);
        } else if self.cursor_row > 0 {
            let mut current = self.lines.remove(self.cursor_row);
            self.cursor_row = self.cursor_row - 1;
            self.cursor_col = self.lines[self.cursor_row].len();
            let above = &mut self.lines[self.cursor_row];
            above.append(&mut current);
            assert(self@.lines =~= old(self)@.backspace().lines);
        }
    }
}

} // verus!
