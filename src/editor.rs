//! The event loop's decisions: render, wait for input, read one key,
//! dispatch it, and stop on the quit key. The caller performs each step
//! that `next_step` names and reports what came of it.

use vstd::prelude::*;
use crate::cursor::moved;
use crate::input::{InputEvent, KeyAction, KeyEvent, action_of, key_action};
use crate::render::{Output, frame_text};

verus! {

/// The work the loop asks for next.
#[derive(Clone, Copy, Debug, PartialEq, Eq, Structural)]
pub enum Step {
    /// Compose a frame and write it to the terminal.
    Refresh,
    /// Wait a bounded time for input, then report whether any is ready.
    Poll,
    /// Read the input that is ready.
    Read,
    /// The loop is over.
    Exit,
}

pub struct Editor {
    pub output: Output,
    pub step: Step,
}

impl Editor {
    pub open spec fn spec_step(&self) -> Step {
        self.step
    }

    pub open spec fn wf(&self) -> bool {
        self.output.wf()
    }

    /// The cursor position after `key` is dispatched from `self`.
    pub open spec fn position_after(&self, key: KeyEvent) -> (nat, nat) {
        let c = self.output.cursor_controller;
        match key_action(key) {
            KeyAction::Move(d) => moved(
                c.cursor_x as nat,
                c.cursor_y as nat,
                self.output.win_size.0 as nat,
                self.output.win_size.1 as nat,
                d,
            ),
            _ => c.position(),
        }
    }

    /// An editor for a `columns` by `rows` screen, about to draw its first
    /// frame.
    pub fn new(columns: usize, rows: usize) -> (r: Editor)
        ensures
            r.wf(),
            r.spec_step() == Step::Refresh,
            r.output.win_size == (columns, rows),
            r.output.editor_contents@ == Seq::<char>::empty(),
            r.output.cursor_controller.position() == (0nat, 0nat),
    {
        Editor { output: Output::new(columns, rows), step: Step::Refresh }
    }

    #[verifier::when_used_as_spec(spec_step)]
    pub fn next_step(&self) -> (r: Step)
        ensures
            r == self.spec_step(),
    {
        self.step
    }

    /// Composes the next frame and hands it out for a single write; the
    /// screen buffer is left empty.
    pub fn refresh_screen(&mut self) -> (frame: String)
        requires
            old(self).wf(),
            old(self).spec_step() == Step::Refresh,
        ensures
            final(self).wf(),
            final(self).spec_step() == Step::Poll,
            frame@ == old(self).output.editor_contents@ + frame_text(
                old(self).output.win_size.0 as nat,
                old(self).output.win_size.1 as nat,
            ),
            final(self).output.editor_contents@ == Seq::<char>::empty(),
            final(self).output.win_size == old(self).output.win_size,
            final(self).output.cursor_controller == old(self).output.cursor_controller,
    {
        self.output.refresh_screen();
        self.step = Step::Poll;
        self.output.editor_contents.take()
    }

    /// Takes the outcome of a bounded wait for input: read when input is
    /// ready, else wait again.
    pub fn poll_result(&mut self, ready: bool)
        requires
            old(self).spec_step() == Step::Poll,
        ensures
            final(self).spec_step() == (if ready {
                Step::Read
            } else {
                Step::Poll
            }),
            final(self).output == old(self).output,
    {
        if ready {
            self.step = Step::Read;
        }
    }

    /// Takes the input that was read: a key is dispatched; anything else is
    /// dropped and the loop waits for input again.
    pub fn read_event(&mut self, event: InputEvent)
        requires
            old(self).wf(),
            old(self).spec_step() == Step::Read,
        ensures
            final(self).wf(),
            final(self).output.win_size == old(self).output.win_size,
            final(self).output.editor_contents == old(self).output.editor_contents,
            match event {
                InputEvent::Key(key) => {
                    &&& final(self).spec_step() == (if key_action(key) == KeyAction::Quit {
                        Step::Exit
                    } else {
                        Step::Refresh
                    })
                    &&& final(self).output.cursor_controller.position() == old(
                        self,
                    ).position_after(key)
                },
                InputEvent::Other => {
                    &&& final(self).spec_step() == Step::Poll
                    &&& final(self).output == old(self).output
                },
            },
    {
        match event {
            InputEvent::Key(key) => {
                self.process_keypress(key);
            },
            InputEvent::Other => {
                self.step = Step::Poll;
            },
        }
    }

    /// Dispatches one key. Returns whether the loop goes on: it stops on the
    /// quit key and on nothing else.
    pub fn process_keypress(&mut self, key: KeyEvent) -> (r: bool)
        requires
            old(self).wf(),
            old(self).spec_step() == Step::Read,
        ensures
            final(self).wf(),
            r == (key_action(key) != KeyAction::Quit),
            final(self).spec_step() == (if r {
                Step::Refresh
            } else {
                Step::Exit
            }),
            final(self).output.cursor_controller.position() == old(self).position_after(key),
            final(self).output.win_size == old(self).output.win_size,
            final(self).output.editor_contents == old(self).output.editor_contents,
    {
        match action_of(&key) {
            KeyAction::Quit => {
                self.step = Step::Exit;
                return false;
            },
            KeyAction::Move(direction) => {
                self.output.move_cursor(direction);
            },
            KeyAction::Ignore => {},
        }
        self.step = Step::Refresh;
        true
    }
}

} // verus!
