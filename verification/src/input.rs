//! The input mapper: a pure function from one decoded key event — a
//! key code plus its exact modifier set — to the closed set of editing
//! commands. Unrecognised combinations map to no command at all.
use vstd::prelude::*;
use crate::cursor::Dir;

verus! {

/// A decoded key code, as the terminal reports it.
#[derive(Clone, Copy, Debug, PartialEq, Eq, Structural)]
pub enum Key {
    Char(char),
    Up,
    Down,
    Left,
    Right,
    Enter,
    Backspace,
    Delete,
    Tab,
    Esc,
    Other,
}

/// The exact modifier set held with the key: none, exactly Shift,
/// exactly Control, or any other combination.
#[derive(Clone, Copy, Debug, PartialEq, Eq, Structural)]
pub enum Mods {
    Plain,
    Shift,
    Control,
    OtherMods,
}

/// An editing command.
#[derive(Clone, Copy, Debug, PartialEq, Eq, Structural)]
pub enum Cmd {
    Quit,
    Move(Dir),
    PageUp,
    PageDown,
    Save,
    DeleteBack,
    DeleteForward,
    Newline,
    Insert(char),
    Nothing,
}

/// The dispatch table: which command a key event triggers.
/// A newline character is never inserted literally — rows are split by
/// the Enter key instead — and every unlisted combination does nothing.
pub open spec fn key_command(key: Key, m: Mods) -> Cmd {
    match (key, m) {
        (Key::Char('q'), Mods::Control) => Cmd::Quit,
        (Key::Char('a'), Mods::Control) => Cmd::Move(Dir::LineStart),
        (Key::Char('d'), Mods::Control) => Cmd::Move(Dir::LineEnd),
        (Key::Char('s'), Mods::Control) => Cmd::Save,
        (Key::Up, Mods::Plain) => Cmd::Move(Dir::Up),
        (Key::Down, Mods::Plain) => Cmd::Move(Dir::Down),
        (Key::Left, Mods::Plain) => Cmd::Move(Dir::Left),
        (Key::Right, Mods::Plain) => Cmd::Move(Dir::Right),
        (Key::Up, Mods::Control) => Cmd::PageUp,
        (Key::Down, Mods::Control) => Cmd::PageDown,
        (Key::Backspace, Mods::Plain) => Cmd::DeleteBack,
        (Key::Delete, Mods::Plain) => Cmd::DeleteForward,
        (Key::Enter, Mods::Plain) => Cmd::Newline,
        (Key::Tab, Mods::Plain) => Cmd::Insert('\t'),
        (Key::Tab, Mods::Shift) => Cmd::Insert('\t'),
        (Key::Char(ch), Mods::Plain) => if ch == '\n' {
            Cmd::Nothing
        } else {
            Cmd::Insert(ch)
        },
        (Key::Char(ch), Mods::Shift) => if ch == '\n' {
            Cmd::Nothing
        } else {
            Cmd::Insert(ch)
        },
        _ => Cmd::Nothing,
    }
}

/// Map one key event to its command.
pub fn map_key(key: Key, m: Mods) -> (r: Cmd)
    ensures
        r == key_command(key, m),
{
    match (key, m) {
        (Key::Char('q'), Mods::Control) => Cmd::Quit,
        (Key::Char('a'), Mods::Control) => Cmd::Move(Dir::LineStart),
        (Key::Char('d'), Mods::Control) => Cmd::Move(Dir::LineEnd),
        (Key::Char('s'), Mods::Control) => Cmd::Save,
        (Key::Up, Mods::Plain) => Cmd::Move(Dir::Up),
        (Key::Down, Mods::Plain) => Cmd::Move(Dir::Down),
        (Key::Left, Mods::Plain) => Cmd::Move(Dir::Left),
        (Key::Right, Mods::Plain) => Cmd::Move(Dir::Right),
        (Key::Up, Mods::Control) => Cmd::PageUp,
        (Key::Down, Mods::Control) => Cmd::PageDown,
        (Key::Backspace, Mods::Plain) => Cmd::DeleteBack,
        (Key::Delete, Mods::Plain) => Cmd::DeleteForward,
        (Key::Enter, Mods::Plain) => Cmd::Newline,
        (Key::Tab, Mods::Plain) => Cmd::Insert('\t'),
        (Key::Tab, Mods::Shift) => Cmd::Insert('\t'),
        (Key::Char(ch), Mods::Plain) => if ch == '\n' {
            Cmd::Nothing
        } else {
            Cmd::Insert(ch)
        },
        (Key::Char(ch), Mods::Shift) => if ch == '\n' {
            Cmd::Nothing
        } else {
            Cmd::Insert(ch)
        },
        _ => Cmd::Nothing,
    }
}

} // verus!
