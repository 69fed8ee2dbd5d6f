use crossterm::terminal::{Clear, ClearType};
use crossterm::Command;
use vstd::prelude::*;

verus! {

/// The escape byte that opens every control sequence.
pub const ESC: u8 = 0x1b;

/// The decimal digits of `n`, as ASCII bytes.
pub open spec fn decimal(n: nat) -> Seq<u8>
    decreases n,
{
    if n < 10 {
        seq![(48 + n) as u8]
    } else {
        decimal(n / 10) + seq![(48 + n % 10) as u8]
    }
}

/// The bytes that move the cursor `n` rows up; none for no rows.
pub open spec fn move_up_bytes(n: nat) -> Seq<u8> {
    if n == 0 {
        Seq::empty()
    } else {
        seq![ESC, 0x5b] + decimal(n) + seq![0x41]
    }
}

/// What a clear erases: the rest of the screen below the cursor, or the rest
/// of the cursor's line.
#[derive(Clone, Copy, Debug, PartialEq, Eq, Structural)]
pub enum Erase {
    ScreenBelow,
    LineRight,
}

/// The bytes that erase what `e` names.
pub open spec fn erase_bytes(e: Erase) -> Seq<u8> {
    match e {
        Erase::ScreenBelow => seq![ESC, 0x5b, 0x4a],
        Erase::LineRight => seq![ESC, 0x5b, 0x4b],
    }
}

/// Relies on crossterm's `Command::write_ansi` for `cursor::MoveUp(n)`, which
/// writes `ESC [ n A` with `n` in decimal, and nothing when `n` is zero. It
/// writes the ANSI form on every platform, and writing into a `String`
/// cannot fail.
#[verifier::external_body]
fn move_up_ansi(n: u16) -> (r: Vec<u8>)
    ensures
        r@ == move_up_bytes(n as nat),
{
    let mut s = String::new();
    let _ = crossterm::cursor::MoveUp(n).write_ansi(&mut s);
    s.into_bytes()
}

/// Relies on crossterm's `Command::write_ansi` for `terminal::Clear`, which
/// writes `ESC [ J` for `ClearType::FromCursorDown` and `ESC [ K` for
/// `ClearType::UntilNewLine`, on every platform; writing into a `String`
/// cannot fail.
#[verifier::external_body]
fn erase_ansi(e: Erase) -> (r: Vec<u8>)
    ensures
        r@ == erase_bytes(e),
{
    let kind = match e {
        Erase::ScreenBelow => ClearType::FromCursorDown,
        Erase::LineRight => ClearType::UntilNewLine,
    };
    let mut s = String::new();
    let _ = Clear(kind).write_ansi(&mut s);
    s.into_bytes()
}

/// Appends the bytes that move the cursor `n` rows up.
pub(crate) fn queue_move_up(buffer: &mut Vec<u8>, n: u16) -> (r: Result<(), anyhow::Error>)
    ensures
        r is Ok,
        final(buffer)@ == old(buffer)@ + move_up_bytes(n as nat),
{
    let mut bytes = move_up_ansi(n);
    buffer.append(&mut bytes);
    Ok(())
}

/// Appends the bytes that erase what `e` names.
pub(crate) fn queue_erase(buffer: &mut Vec<u8>, e: Erase) -> (r: Result<(), anyhow::Error>)
    ensures
        r is Ok,
        final(buffer)@ == old(buffer)@ + erase_bytes(e),
{
    let mut bytes = erase_ansi(e);
    buffer.append(&mut bytes);
    Ok(())
}

} // verus!
