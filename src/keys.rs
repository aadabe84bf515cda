//! Key symbols, and how the terminal's raw input maps onto them.
use vstd::prelude::*;
use crate::render::{Cmd, Command, cmds, emit};

verus! {

/// A key event, as the widgets see it.
#[derive(Debug, Clone, Copy, PartialEq, Eq, Structural)]
pub enum Key {
    Alpha(char),
    Enter,
    Space,
    Backspace,
    ArrowUp,
    ArrowDown,
    ArrowLeft,
    ArrowRight,
    F1,
    F2,
    F3,
    F4,
    F5,
    F6,
    F7,
    F8,
    F9,
    F10,
    F11,
    F12,
}

/// An input event as the terminal driver reports it.
#[derive(Debug, Clone, Copy, PartialEq, Eq, Structural)]
pub enum RawKey {
    Character(char),
    KeyUp,
    KeyDown,
    KeyLeft,
    KeyRight,
    KeyF1,
    KeyF2,
    KeyF3,
    KeyF4,
    KeyF5,
    KeyF6,
    KeyF7,
    KeyF8,
    KeyF9,
    KeyF10,
    KeyF11,
    KeyF12,
    /// Any other event.
    Other,
}

/// The key symbol of a raw input event: carriage return and line feed are
/// `Enter`, the backspace control code is `Backspace`, any other character is
/// `Alpha`; events outside the symbol set have none.
pub open spec fn key_of(i: RawKey) -> Option<Key> {
    match i {
        RawKey::Character(c) => if c == '\n' || c == '\r' {
            Some(Key::Enter)
        } else if c == '\x08' {
            Some(Key::Backspace)
        } else {
            Some(Key::Alpha(c))
        },
        RawKey::KeyUp => Some(Key::ArrowUp),
        RawKey::KeyDown => Some(Key::ArrowDown),
        RawKey::KeyLeft => Some(Key::ArrowLeft),
        RawKey::KeyRight => Some(Key::ArrowRight),
        RawKey::KeyF1 => Some(Key::F1),
        RawKey::KeyF2 => Some(Key::F2),
        RawKey::KeyF3 => Some(Key::F3),
        RawKey::KeyF4 => Some(Key::F4),
        RawKey::KeyF5 => Some(Key::F5),
        RawKey::KeyF6 => Some(Key::F6),
        RawKey::KeyF7 => Some(Key::F7),
        RawKey::KeyF8 => Some(Key::F8),
        RawKey::KeyF9 => Some(Key::F9),
        RawKey::KeyF10 => Some(Key::F10),
        RawKey::KeyF11 => Some(Key::F11),
        RawKey::KeyF12 => Some(Key::F12),
        RawKey::Other => None,
    }
}

/// Maps a raw input event onto the key symbols.
pub fn decode_key(input: RawKey) -> (r: Option<Key>)
    ensures
        r == key_of(input),
{
    match input {
        RawKey::Character(c) => {
            if c == '\n' || c == '\r' {
                Some(Key::Enter)
            } else if c == '\x08' {
                Some(Key::Backspace)
            } else {
                Some(Key::Alpha(c))
            }
        },
        RawKey::KeyUp => Some(Key::ArrowUp),
        RawKey::KeyDown => Some(Key::ArrowDown),
        RawKey::KeyLeft => Some(Key::ArrowLeft),
        RawKey::KeyRight => Some(Key::ArrowRight),
        RawKey::KeyF1 => Some(Key::F1),
        RawKey::KeyF2 => Some(Key::F2),
        RawKey::KeyF3 => Some(Key::F3),
        RawKey::KeyF4 => Some(Key::F4),
        RawKey::KeyF5 => Some(Key::F5),
        RawKey::KeyF6 => Some(Key::F6),
        RawKey::KeyF7 => Some(Key::F7),
        RawKey::KeyF8 => Some(Key::F8),
        RawKey::KeyF9 => Some(Key::F9),
        RawKey::KeyF10 => Some(Key::F10),
        RawKey::KeyF11 => Some(Key::F11),
        RawKey::KeyF12 => Some(Key::F12),
        RawKey::Other => None,
    }
}

/// After a key was read with the cursor at (`x`, `y`): the commands that
/// erase the character the driver echoed, if the key was a character, and put
/// the cursor back at (`x`, `y`).
pub fn hide_echo(key: Option<Key>, x: i32, y: i32) -> (r: Vec<Command>)
    ensures
        cmds(r@) == (if key matches Some(Key::Alpha(_)) {
            seq![Cmd::MoveBy(-1, 0), Cmd::Delete, Cmd::MoveTo(x as int, y as int)]
        } else {
            seq![Cmd::MoveTo(x as int, y as int)]
        }),
{
    let mut out: Vec<Command> = Vec::new();
    if let Some(Key::Alpha(_)) = key {
        emit(&mut out, Command::MoveBy(-1, 0));
        emit(&mut out, Command::Delete);
    }
    emit(&mut out, Command::MoveTo(x, y));
    assert(cmds(out@) =~= (if key matches Some(Key::Alpha(_)) {
        seq![Cmd::MoveBy(-1, 0), Cmd::Delete, Cmd::MoveTo(x as int, y as int)]
    } else {
        seq![Cmd::MoveTo(x as int, y as int)]
    }));
    out
}

} // verus!
