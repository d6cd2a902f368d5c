//! The terminal's input mode, and who holds it.
//!
//! A terminal is cooked (line editing and echo by the terminal) or raw (each
//! key delivered at once, no echo). Raw mode is held for the length of one read
//! and given back before anything else is printed. `Terminal` keeps that
//! discipline as a value, so that the reads can state it.

use vstd::prelude::*;

verus! {

/// The input mode of a terminal.
#[derive(Clone, Copy, Debug, PartialEq, Eq)]
pub enum Mode {
    /// Lines are edited and echoed by the terminal.
    Cooked,
    /// Keys are delivered one by one, without echo.
    Raw,
}

/// Why the mode could not be changed.
#[derive(Clone, Copy, Debug, PartialEq, Eq)]
pub enum ModeError {
    /// Raw mode is held already: two reads cannot hold it at once.
    AlreadyRaw,
}

/// The mode that the terminal is known to be in.
#[derive(Debug)]
pub struct Terminal {
    mode: Mode,
}

impl Terminal {
    /// The mode that the terminal is in.
    pub closed spec fn mode(&self) -> Mode {
        self.mode
    }

    /// No read holds raw mode.
    pub open spec fn is_cooked(&self) -> bool {
        self.mode() == Mode::Cooked
    }

    /// A read holds raw mode.
    pub open spec fn is_raw(&self) -> bool {
        self.mode() == Mode::Raw
    }

    /// The terminal after raw mode was asked for: raw where it was cooked, an
    /// error where it was raw already.
    pub open spec fn entered(self) -> Result<Mode, ModeError> {
        if self.is_cooked() {
            Ok(Mode::Raw)
        } else {
            Err(ModeError::AlreadyRaw)
        }
    }

    /// A terminal in the mode that a program starts in: cooked.
    pub fn new() -> (t: Terminal)
        ensures
            t.is_cooked(),
    {
        Terminal { mode: Mode::Cooked }
    }

    /// The mode that the terminal is in.
    pub fn current_mode(&self) -> (m: Mode)
        ensures
            m == self.mode(),
    {
        self.mode
    }

    /// Takes raw mode. Fails, and changes nothing, where it is held already.
    pub fn enter_raw(&mut self) -> (r: Result<(), ModeError>)
        ensures
            match r {
                Ok(_) => old(self).entered() == Ok::<Mode, ModeError>(final(self).mode()),
                Err(e) => old(self).entered() == Err::<Mode, ModeError>(e) && final(self).mode()
                    == old(self).mode(),
            },
    {
        match self.mode {
            Mode::Cooked => {
                self.mode = Mode::Raw;
                Ok(())
            },
            Mode::Raw => Err(ModeError::AlreadyRaw),
        }
    }

    /// Gives raw mode back. The terminal is cooked afterwards, whatever it was
    /// before.
    pub fn restore(&mut self)
        ensures
            final(self).is_cooked(),
    {
        self.mode = Mode::Cooked;
    }
}

/// Once raw mode was given back it can be taken again: asking for it on a
/// cooked terminal never fails with `AlreadyRaw`.
pub proof fn law_cooked_can_enter(t: Terminal)
    requires
        t.is_cooked(),
    ensures
        t.entered() == Ok::<Mode, ModeError>(Mode::Raw),
{
}

} // verus!
