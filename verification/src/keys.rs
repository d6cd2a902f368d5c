//! Key events, as plain values.

use vstd::prelude::*;

verus! {

/// The modifier bit for Shift.
pub const SHIFT: u8 = 1;

/// The modifier bit for Control.
pub const CONTROL: u8 = 2;

/// The modifier bit for Alt.
pub const ALT: u8 = 4;

/// The letter that, pressed with Control alone, ends the session.
pub const CHORD_LETTER: char = 'x';

/// Which key was pressed.
#[derive(Clone, Copy, Debug, PartialEq, Eq)]
pub enum KeyCode {
    /// Enter or Return.
    Enter,
    /// A key that stands for a character.
    Char(char),
    /// Any other key: a function key, an arrow, Escape.
    Other,
}

/// One press of a key.
#[derive(Clone, Copy, Debug, PartialEq, Eq)]
pub struct KeyPress {
    /// The key.
    pub code: KeyCode,
    /// The modifiers held with it, as a set of the bits `SHIFT`, `CONTROL`,
    /// `ALT` and higher ones for rarer modifiers.
    pub modifiers: u8,
}

/// What one read of the event stream delivered.
#[derive(Clone, Copy, Debug, PartialEq, Eq)]
pub enum Event {
    /// A key was pressed.
    Key(KeyPress),
    /// The stream delivered something that is no key: no more keys will come.
    NoKey,
    /// The stream could not be read.
    Fault,
}

/// What a key press means to the collector.
#[derive(Clone, Copy, Debug, PartialEq, Eq)]
pub enum Keystroke {
    /// A character to add to the line.
    Printable(char),
    /// The line is complete.
    Enter,
    /// The session is over.
    Chord,
    /// A key that the collector takes no notice of.
    Ignored,
}

/// The meaning of a key press. Enter ends the line whatever is held with it.
/// The chord is the chord letter with Control and nothing else; every other
/// character key is printable, modifiers or not.
pub open spec fn keystroke_of(key: KeyPress) -> Keystroke {
    match key.code {
        KeyCode::Enter => Keystroke::Enter,
        KeyCode::Char(c) => if c == CHORD_LETTER && key.modifiers == CONTROL {
            Keystroke::Chord
        } else {
            Keystroke::Printable(c)
        },
        KeyCode::Other => Keystroke::Ignored,
    }
}

/// The character that `event` adds to the line, if it adds one.
pub open spec fn printable_char(event: Event) -> Option<char> {
    match event {
        Event::Key(key) => match keystroke_of(key) {
            Keystroke::Printable(c) => Some(c),
            _ => None,
        },
        _ => None,
    }
}

/// `event` is a press of Enter.
pub open spec fn is_enter(event: Event) -> bool {
    event matches Event::Key(key) && keystroke_of(key) == Keystroke::Enter
}

/// `event` is the chord that ends the session.
pub open spec fn is_chord(event: Event) -> bool {
    event matches Event::Key(key) && keystroke_of(key) == Keystroke::Chord
}

/// Says what a key press means to the collector.
pub fn classify(key: &KeyPress) -> (k: Keystroke)
    ensures
        k == keystroke_of(*key),
{
    match key.code {
        KeyCode::Enter => Keystroke::Enter,
        KeyCode::Char(c) => {
            if c == CHORD_LETTER && key.modifiers == CONTROL {
                Keystroke::Chord
            } else {
                Keystroke::Printable(c)
            }
        },
        KeyCode::Other => Keystroke::Ignored,
    }
}

/// A press of the key for `c` with nothing held.
pub fn plain_key(c: char) -> (e: Event)
    ensures
        e == Event::Key(KeyPress { code: KeyCode::Char(c), modifiers: 0 }),
        printable_char(e) == Some(c),
{
    Event::Key(KeyPress { code: KeyCode::Char(c), modifiers: 0 })
}

/// A press of Enter with nothing held.
pub fn enter_key() -> (e: Event)
    ensures
        e == Event::Key(KeyPress { code: KeyCode::Enter, modifiers: 0 }),
        is_enter(e),
{
    Event::Key(KeyPress { code: KeyCode::Enter, modifiers: 0 })
}

/// The chord that ends the session.
pub fn chord_key() -> (e: Event)
    ensures
        e == Event::Key(KeyPress { code: KeyCode::Char(CHORD_LETTER), modifiers: CONTROL }),
        is_chord(e),
{
    Event::Key(KeyPress { code: KeyCode::Char(CHORD_LETTER), modifiers: CONTROL })
}

} // verus!
