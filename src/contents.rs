//! The screen buffer: one frame of output staged before a single write.

use vstd::prelude::*;
use crate::ansi::{TermCommand, command_seq, command_encodable, write_command};

verus! {

/// Relies on `String::push`: appends `ch` at the end.
#[verifier::external_body]
fn push_char(s: &mut String, ch: char)
    ensures
        final(s)@ == old(s)@.push(ch),
{
    s.push(ch)
}

/// An append-only text accumulator holding one not yet flushed frame.
pub struct EditorContents {
    content: String,
}

impl View for EditorContents {
    type V = Seq<char>;

    closed spec fn view(&self) -> Seq<char> {
        self.content@
    }
}

impl EditorContents {
    pub fn new() -> (r: EditorContents)
        ensures
            r@ == Seq::<char>::empty(),
    {
        EditorContents { content: String::new() }
    }

    pub fn push(&mut self, ch: char)
        ensures
            final(self)@ == old(self)@.push(ch),
    {
        push_char(&mut self.content, ch)
    }

    pub fn push_str(&mut self, string: &str)
        ensures
            final(self)@ == old(self)@ + string@,
    {
        self.content.append(string)
    }

    /// Stages a terminal command.
    pub fn queue(&mut self, cmd: TermCommand)
        requires
            command_encodable(cmd),
        ensures
            final(self)@ == old(self)@ + command_seq(cmd),
    {
        write_command(&mut self.content, cmd)
    }

    /// The text staged so far.
    pub fn as_str(&self) -> (r: &str)
        ensures
            r@ == self@,
    {
        self.content.as_str()
    }

    /// Hands out the staged frame for writing and leaves the buffer empty.
    /// The buffer is emptied before the write is attempted, so a failed write
    /// never carries stale text into the next frame.
    pub fn take(&mut self) -> (r: String)
        ensures
            r@ == old(self)@,
            final(self)@ == Seq::<char>::empty(),
    {
        let mut out = String::new();
        core::mem::swap(&mut out, &mut self.content);
        out
    }
}

/// The outcome of a flush, from the outcome of the device write and of the
/// device flush that follows it: a failed write is reported first.
pub fn flush_result<E>(written: Result<(), E>, flushed: Result<(), E>) -> (r: Result<(), E>)
    ensures
        written is Err ==> r == written,
        written is Ok ==> r == flushed,
{
    match written {
        Err(e) => Err(e),
        Ok(()) => flushed,
    }
}

} // verus!
