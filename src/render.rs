//! Frame composition: row markers, the centered banner and the cursor
//! commands, staged into the screen buffer.

use vstd::prelude::*;
use crate::ansi::{ClearKind, TermCommand, clear_seq, hide_cursor_seq, move_to_seq, show_cursor_seq};
use crate::contents::EditorContents;
use crate::cursor::{CursorController, Direction, moved};

verus! {

pub const WELCOME_PREFIX: &'static str = "Pound Editor --- Version ";

pub const VERSION: &'static str = "0.0.1";

/// The banner shown on the welcome row.
pub open spec fn banner() -> Seq<char> {
    WELCOME_PREFIX@ + VERSION@
}

/// The banner cut to at most `columns` characters.
pub open spec fn banner_text(columns: nat) -> Seq<char> {
    if banner().len() > columns {
        banner().subrange(0, columns as int)
    } else {
        banner()
    }
}

/// Half of the width left beside the (possibly cut) banner.
pub open spec fn banner_padding(columns: nat) -> nat {
    ((columns - banner_text(columns).len()) as nat) / 2
}

pub open spec fn spaces(n: nat) -> Seq<char> {
    Seq::new(n, |k: int| ' ')
}

/// The welcome row: where there is padding its first cell holds the row
/// marker and the rest of it is spaces, then comes the banner.
pub open spec fn banner_row(columns: nat) -> Seq<char> {
    let p = banner_padding(columns);
    if p != 0 {
        seq!['~'] + spaces((p - 1) as nat) + banner_text(columns)
    } else {
        banner_text(columns)
    }
}

/// The visible text of row `i` of a `rows`-row screen: the welcome row a
/// third of the way down, a row marker elsewhere.
pub open spec fn row_text(i: nat, columns: nat, rows: nat) -> Seq<char> {
    if i == rows / 3 {
        banner_row(columns)
    } else {
        seq!['~']
    }
}

/// A line break, after every row but the last.
pub open spec fn line_break(i: nat, rows: nat) -> Seq<char> {
    if i + 1 < rows {
        seq!['\r', '\n']
    } else {
        Seq::empty()
    }
}

/// Row `i` as staged: its text, a clear to the end of the line, and its
/// line break.
pub open spec fn row_segment(i: nat, columns: nat, rows: nat) -> Seq<char> {
    row_text(i, columns, rows) + clear_seq(ClearKind::UntilNewLine) + line_break(i, rows)
}

/// The first `n` row segments of a `columns` by `rows` screen.
pub open spec fn rows_prefix(columns: nat, rows: nat, n: nat) -> Seq<char>
    decreases n,
{
    if n == 0 {
        Seq::empty()
    } else {
        rows_prefix(columns, rows, (n - 1) as nat) + row_segment((n - 1) as nat, columns, rows)
    }
}

/// All the rows of a `columns` by `rows` screen.
pub open spec fn draw_rows_text(columns: nat, rows: nat) -> Seq<char> {
    rows_prefix(columns, rows, rows)
}

/// One whole frame: hide the cursor, clear the screen, home, the rows,
/// home again and show the cursor.
pub open spec fn frame_text(columns: nat, rows: nat) -> Seq<char> {
    hide_cursor_seq() + clear_seq(ClearKind::All) + move_to_seq(0, 0) + draw_rows_text(
        columns,
        rows,
    ) + move_to_seq(0, 0) + show_cursor_seq()
}

/// Stages the welcome row for a screen `columns` wide.
fn push_banner_row(contents: &mut EditorContents, columns: usize)
    ensures
        final(contents)@ == old(contents)@ + banner_row(columns as nat),
{
    let mut welcome = String::from_str(WELCOME_PREFIX);
    welcome.append(VERSION);
    let len = welcome.as_str().unicode_len();
    let text: &str = if len > columns {
        welcome.as_str().substring_char(0, columns)
    } else {
        welcome.as_str()
    };
    assert(text@ == banner_text(columns as nat));
    let text_len: usize = if len > columns {
        columns
    } else {
        len
    };
    let ghost start = contents@;
    let mut padding: usize = (columns - text_len) / 2;
    if padding != 0 {
        contents.push('~');
        padding = padding - 1;
    }
    let ghost lead = contents@;
    let mut k: usize = 0;
    while k < padding
        invariant
            k <= padding,
            contents@ == lead + spaces(k as nat),
        decreases padding - k,
    {
        contents.push(' ');
        k = k + 1;
        assert(contents@ =~= lead + spaces(k as nat));
    }
    contents.push_str(text);
    assert(contents@ =~= start + banner_row(columns as nat));
}

/// The screen being drawn: its size, the frame being staged and the cursor.
pub struct Output {
    /// Columns, then rows.
    pub win_size: (usize, usize),
    pub editor_contents: EditorContents,
    pub cursor_controller: CursorController,
}

impl Output {
    pub open spec fn wf(&self) -> bool {
        &&& self.cursor_controller.wf()
        &&& self.cursor_controller.screen_columns == self.win_size.0
        &&& self.cursor_controller.screen_rows == self.win_size.1
    }

    /// An output for a `columns` by `rows` screen, with nothing staged and
    /// the cursor at the top left corner.
    pub fn new(columns: usize, rows: usize) -> (r: Output)
        ensures
            r.wf(),
            r.win_size == (columns, rows),
            r.editor_contents@ == Seq::<char>::empty(),
            r.cursor_controller.position() == (0nat, 0nat),
    {
        Output {
            win_size: (columns, rows),
            editor_contents: EditorContents::new(),
            cursor_controller: CursorController::new(columns, rows),
        }
    }

    /// Stages every row of the screen.
    pub fn draw_rows(&mut self)
        ensures
            final(self).editor_contents@ == old(self).editor_contents@ + draw_rows_text(
                old(self).win_size.0 as nat,
                old(self).win_size.1 as nat,
            ),
            final(self).win_size == old(self).win_size,
            final(self).cursor_controller == old(self).cursor_controller,
    {
        let screen_rows = self.win_size.1;
        let screen_columns = self.win_size.0;
        let ghost start = self.editor_contents@;
        let mut i: usize = 0;
        while i < screen_rows
            invariant
                i <= screen_rows,
                screen_rows == self.win_size.1,
                screen_columns == self.win_size.0,
                self.win_size == old(self).win_size,
                self.cursor_controller == old(self).cursor_controller,
                self.editor_contents@ == start + rows_prefix(
                    screen_columns as nat,
                    screen_rows as nat,
                    i as nat,
                ),
            decreases screen_rows - i,
        {
            if i == screen_rows / 3 {
                push_banner_row(&mut self.editor_contents, screen_columns);
            } else {
                self.editor_contents.push('~');
            }
            self.editor_contents.queue(TermCommand::Clear(ClearKind::UntilNewLine));
            if i < screen_rows - 1 {
                let line_end = "\r\n";
                proof {
                    reveal_strlit("\r\n");
                }
                self.editor_contents.push_str(line_end);
            }
            assert(self.editor_contents@ =~= start + rows_prefix(
                screen_columns as nat,
                screen_rows as nat,
                (i + 1) as nat,
            ));
            i = i + 1;
        }
    }

    /// Stages one whole frame. The cursor is homed to the top left corner,
    /// not to the cursor position.
    pub fn refresh_screen(&mut self)
        ensures
            final(self).editor_contents@ == old(self).editor_contents@ + frame_text(
                old(self).win_size.0 as nat,
                old(self).win_size.1 as nat,
            ),
            final(self).win_size == old(self).win_size,
            final(self).cursor_controller == old(self).cursor_controller,
    {
        let ghost start = self.editor_contents@;
        self.editor_contents.queue(TermCommand::HideCursor);
        self.editor_contents.queue(TermCommand::Clear(ClearKind::All));
        self.editor_contents.queue(TermCommand::MoveTo(0, 0));
        self.draw_rows();
        self.editor_contents.queue(TermCommand::MoveTo(0, 0));
        self.editor_contents.queue(TermCommand::ShowCursor);
        assert(self.editor_contents@ =~= start + frame_text(
            self.win_size.0 as nat,
            self.win_size.1 as nat,
        ));
    }

    pub fn move_cursor(&mut self, direction: Direction)
        requires
            old(self).wf(),
        ensures
            final(self).wf(),
            final(self).win_size == old(self).win_size,
            final(self).editor_contents == old(self).editor_contents,
            final(self).cursor_controller.position() == moved(
                old(self).cursor_controller.cursor_x as nat,
                old(self).cursor_controller.cursor_y as nat,
                old(self).win_size.0 as nat,
                old(self).win_size.1 as nat,
                direction,
            ),
    {
        self.cursor_controller.move_cursor(direction);
    }
}

} // verus!
