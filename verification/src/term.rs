//! Terminal escape sequences, obtained from the terminal-control
//! library. Each wrapper performs one library call that only computes
//! an ANSI control sequence; its contract states that sequence
//! exactly, so the frame builder's output is pinned down to the
//! character.
use vstd::prelude::*;
use crossterm::Command;
use crate::chars::dec_spec;

verus! {

/// The control sequence that hides the terminal cursor.
pub open spec fn hide_cursor_seq() -> Seq<char> {
    seq!['\u{1b}', '[', '?', '2', '5', 'l']
}

/// The control sequence that shows the terminal cursor.
pub open spec fn show_cursor_seq() -> Seq<char> {
    seq!['\u{1b}', '[', '?', '2', '5', 'h']
}

/// The control sequence that clears from the write head to the end of
/// the terminal row.
pub open spec fn clear_line_seq() -> Seq<char> {
    seq!['\u{1b}', '[', 'K']
}

/// The control sequence that moves the write head to column `x` of
/// row `y` (both zero-based; the sequence itself is one-based).
pub open spec fn move_to_seq(x: nat, y: nat) -> Seq<char> {
    seq!['\u{1b}', '['] + dec_spec(y + 1) + seq![';'] + dec_spec(x + 1) + seq!['H']
}

/// The control sequence that turns on reverse video.
pub open spec fn reverse_attr_seq() -> Seq<char> {
    seq!['\u{1b}', '[', '7', 'm']
}

/// The control sequence that resets all text attributes.
pub open spec fn reset_attr_seq() -> Seq<char> {
    seq!['\u{1b}', '[', '0', 'm']
}

/// Relies on `crossterm::cursor::Hide`: its `write_ansi` emits exactly
/// `CSI ?25l`.
#[verifier::external_body]
pub(crate) fn ansi_hide_cursor() -> (r: Vec<char>)
    ensures
        r@ == hide_cursor_seq(),
{
    let mut s = String::new();
    let _ = crossterm::cursor::Hide.write_ansi(&mut s);
    s.chars().collect()
}

/// Relies on `crossterm::cursor::Show`: its `write_ansi` emits exactly
/// `CSI ?25h`.
#[verifier::external_body]
pub(crate) fn ansi_show_cursor() -> (r: Vec<char>)
    ensures
        r@ == show_cursor_seq(),
{
    let mut s = String::new();
    let _ = crossterm::cursor::Show.write_ansi(&mut s);
    s.chars().collect()
}

/// Relies on `crossterm::terminal::Clear` with `ClearType::UntilNewLine`:
/// its `write_ansi` emits exactly `CSI K`.
#[verifier::external_body]
pub(crate) fn ansi_clear_until_newline() -> (r: Vec<char>)
    ensures
        r@ == clear_line_seq(),
{
    let mut s = String::new();
    let _ = crossterm::terminal::Clear(crossterm::terminal::ClearType::UntilNewLine).write_ansi(
        &mut s,
    );
    s.chars().collect()
}

/// Relies on `crossterm::cursor::MoveTo(x, y)`: its `write_ansi` emits
/// `CSI {y+1};{x+1}H` with both numbers in plain decimal. The bounds
/// keep the one-based coordinates within `u16`.
#[verifier::external_body]
pub(crate) fn ansi_move_to(x: u16, y: u16) -> (r: Vec<char>)
    requires
        x < 0xFFFF,
        y < 0xFFFF,
    ensures
        r@ == move_to_seq(x as nat, y as nat),
{
    let mut s = String::new();
    let _ = crossterm::cursor::MoveTo(x, y).write_ansi(&mut s);
    s.chars().collect()
}

/// Relies on `crossterm::style::SetAttribute` with
/// `Attribute::Reverse` (SGR code 7): its `write_ansi` emits exactly
/// `CSI 7m`.
#[verifier::external_body]
pub(crate) fn ansi_reverse_attr() -> (r: Vec<char>)
    ensures
        r@ == reverse_attr_seq(),
{
    let mut s = String::new();
    let _ = crossterm::style::SetAttribute(crossterm::style::Attribute::Reverse).write_ansi(
        &mut s,
    );
    s.chars().collect()
}

/// Relies on `crossterm::style::SetAttribute` with `Attribute::Reset`
/// (SGR code 0): its `write_ansi` emits exactly `CSI 0m`.
#[verifier::external_body]
pub(crate) fn ansi_reset_attr() -> (r: Vec<char>)
    ensures
        r@ == reset_attr_seq(),
{
    let mut s = String::new();
    let _ = crossterm::style::SetAttribute(crossterm::style::Attribute::Reset).write_ansi(&mut s);
    s.chars().collect()
}

} // verus!
