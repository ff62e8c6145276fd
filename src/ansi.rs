//! Terminal control sequences, encoded by crossterm's commands.

use vstd::prelude::*;

verus! {

/// The escape character that opens every control sequence.
pub const ESC: char = '\x1b';

/// The part of the screen that a clear command erases.
#[derive(Clone, Copy, Debug, PartialEq, Eq, Structural)]
pub enum ClearKind {
    /// The whole visible area.
    All,
    /// From the cursor to the end of its line.
    UntilNewLine,
}

/// A terminal command that can be staged into a frame.
#[derive(Clone, Copy, Debug, PartialEq, Eq, Structural)]
pub enum TermCommand {
    HideCursor,
    ShowCursor,
    Clear(ClearKind),
    /// Column, then row, both counted from 0.
    MoveTo(u16, u16),
}

/// Control Sequence Introducer followed by `body`.
pub open spec fn csi(body: Seq<char>) -> Seq<char> {
    seq![ESC, '['] + body
}

pub open spec fn hide_cursor_seq() -> Seq<char> {
    csi(seq!['?', '2', '5', 'l'])
}

pub open spec fn show_cursor_seq() -> Seq<char> {
    csi(seq!['?', '2', '5', 'h'])
}

pub open spec fn clear_seq(kind: ClearKind) -> Seq<char> {
    match kind {
        ClearKind::All => csi(seq!['2', 'J']),
        ClearKind::UntilNewLine => csi(seq!['K']),
    }
}

pub open spec fn digit_char(d: nat) -> char {
    seq!['0', '1', '2', '3', '4', '5', '6', '7', '8', '9'][d as int]
}

/// Decimal notation of `n`, without leading zeros.
pub open spec fn decimal(n: nat) -> Seq<char>
    decreases n,
{
    if n < 10 {
        seq![digit_char(n)]
    } else {
        decimal(n / 10).push(digit_char(n % 10))
    }
}

/// Moves the cursor to column `col`, row `row` (both counted from 0);
/// the sequence itself counts from 1 and names the row first.
pub open spec fn move_to_seq(col: nat, row: nat) -> Seq<char> {
    csi(decimal(row + 1) + seq![';'] + decimal(col + 1) + seq!['H'])
}

/// The text that stages `cmd`.
pub open spec fn command_seq(cmd: TermCommand) -> Seq<char> {
    match cmd {
        TermCommand::HideCursor => hide_cursor_seq(),
        TermCommand::ShowCursor => show_cursor_seq(),
        TermCommand::Clear(kind) => clear_seq(kind),
        TermCommand::MoveTo(col, row) => move_to_seq(col as nat, row as nat),
    }
}

/// Whether crossterm can encode `cmd` (its `MoveTo` adds 1 in `u16`).
pub open spec fn command_encodable(cmd: TermCommand) -> bool {
    match cmd {
        TermCommand::MoveTo(col, row) => col < u16::MAX && row < u16::MAX,
        _ => true,
    }
}

/// Appends the ANSI form of `cmd` to `out`.
pub fn write_command(out: &mut String, cmd: TermCommand)
    requires
        command_encodable(cmd),
    ensures
        final(out)@ == old(out)@ + command_seq(cmd),
{
    match cmd {
        TermCommand::HideCursor => queue_hide_cursor(out),
        TermCommand::ShowCursor => queue_show_cursor(out),
        TermCommand::Clear(kind) => queue_clear(out, kind),
        TermCommand::MoveTo(col, row) => queue_move_to(out, col, row),
    }
}

/// Relies on crossterm's `cursor::Hide` command: its ANSI form is `CSI ?25l`,
/// written into a `String`.
#[verifier::external_body]
fn queue_hide_cursor(out: &mut String)
    ensures
        final(out)@ == old(out)@ + hide_cursor_seq(),
{
    let _ = crossterm::Command::write_ansi(&crossterm::cursor::Hide, out);
}

/// Relies on crossterm's `cursor::Show` command: its ANSI form is `CSI ?25h`,
/// written into a `String`.
#[verifier::external_body]
fn queue_show_cursor(out: &mut String)
    ensures
        final(out)@ == old(out)@ + show_cursor_seq(),
{
    let _ = crossterm::Command::write_ansi(&crossterm::cursor::Show, out);
}

/// Relies on crossterm's `terminal::Clear` command: `CSI 2J` for
/// `ClearType::All`, `CSI K` for `ClearType::UntilNewLine`, written into a
/// `String`.
#[verifier::external_body]
fn queue_clear(out: &mut String, kind: ClearKind)
    ensures
        final(out)@ == old(out)@ + clear_seq(kind),
{
    let ty = match kind {
        ClearKind::All => crossterm::terminal::ClearType::All,
        ClearKind::UntilNewLine => crossterm::terminal::ClearType::UntilNewLine,
    };
    let _ = crossterm::Command::write_ansi(&crossterm::terminal::Clear(ty), out);
}

/// Relies on crossterm's `cursor::MoveTo(col, row)` command: its ANSI form is
/// `CSI {row + 1};{col + 1}H` in decimal, written into a `String`. The `+ 1`
/// is computed in `u16`, hence the bounds.
#[verifier::external_body]
fn queue_move_to(out: &mut String, col: u16, row: u16)
    requires
        col < u16::MAX,
        row < u16::MAX,
    ensures
        final(out)@ == old(out)@ + move_to_seq(col as nat, row as nat),
{
    let _ = crossterm::Command::write_ansi(&crossterm::cursor::MoveTo(col, row), out);
}

} // verus!
