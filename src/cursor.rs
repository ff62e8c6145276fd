//! The logical cursor position and its directional moves.

use vstd::prelude::*;

verus! {

/// One of the four directional moves.
#[derive(Clone, Copy, Debug, PartialEq, Eq, Structural)]
pub enum Direction {
    Up,
    Left,
    Down,
    Right,
}

/// The largest index of an axis of `n` cells (0 for an empty axis).
pub open spec fn last_index(n: nat) -> nat {
    if n == 0 {
        0
    } else {
        (n - 1) as nat
    }
}

/// One step from `p` towards `toward`, without passing 0 or `last`.
pub open spec fn step_axis(p: nat, last: nat, toward_zero: bool) -> nat {
    if toward_zero {
        if p == 0 {
            0
        } else {
            (p - 1) as nat
        }
    } else if p < last {
        p + 1
    } else {
        p
    }
}

/// The position `(x, y)` after a move in `direction` on a screen of
/// `columns` by `rows` cells: a unit step along one axis, held at the edges.
pub open spec fn moved(x: nat, y: nat, columns: nat, rows: nat, direction: Direction) -> (nat, nat) {
    match direction {
        Direction::Up => (x, step_axis(y, last_index(rows), true)),
        Direction::Down => (x, step_axis(y, last_index(rows), false)),
        Direction::Left => (step_axis(x, last_index(columns), true), y),
        Direction::Right => (step_axis(x, last_index(columns), false), y),
    }
}

/// The cursor position on a screen of fixed size.
pub struct CursorController {
    pub cursor_x: usize,
    pub cursor_y: usize,
    pub screen_columns: usize,
    pub screen_rows: usize,
}

impl CursorController {
    /// The cursor stays on the screen.
    pub open spec fn wf(&self) -> bool {
        self.cursor_x <= last_index(self.screen_columns as nat)
            && self.cursor_y <= last_index(self.screen_rows as nat)
    }

    pub open spec fn position(&self) -> (nat, nat) {
        (self.cursor_x as nat, self.cursor_y as nat)
    }

    /// A cursor at the top left corner of a `columns` by `rows` screen.
    pub fn new(columns: usize, rows: usize) -> (r: CursorController)
        ensures
            r.wf(),
            r.position() == (0nat, 0nat),
            r.screen_columns == columns,
            r.screen_rows == rows,
    {
        CursorController { cursor_x: 0, cursor_y: 0, screen_columns: columns, screen_rows: rows }
    }

    pub fn move_cursor(&mut self, direction: Direction)
        requires
            old(self).wf(),
        ensures
            final(self).wf(),
            final(self).screen_columns == old(self).screen_columns,
            final(self).screen_rows == old(self).screen_rows,
            final(self).position() == moved(
                old(self).cursor_x as nat,
                old(self).cursor_y as nat,
                old(self).screen_columns as nat,
                old(self).screen_rows as nat,
                direction,
            ),
    {
        match direction {
            Direction::Up => {
                if self.cursor_y > 0 {
                    self.cursor_y = self.cursor_y - 1;
                }
            },
            Direction::Left => {
                if self.cursor_x > 0 {
                    self.cursor_x = self.cursor_x - 1;
                }
            },
            Direction::Down => {
                if self.screen_rows > 0 && self.cursor_y < self.screen_rows - 1 {
                    self.cursor_y = self.cursor_y + 1;
                }
            },
            Direction::Right => {
                if self.screen_columns > 0 && self.cursor_x < self.screen_columns - 1 {
                    self.cursor_x = self.cursor_x + 1;
                }
            },
        }
    }
}

} // verus!
