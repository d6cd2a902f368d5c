//! Collecting phrases typed by a user, one line at a time.
//!
//! Two collectors are offered. The buffered one takes whole lines and stops at
//! the first empty line. The keystroke one assembles each line from single key
//! events and stops at the Ctrl+X chord. Both are pure: they are handed what was
//! read, say what to do next, and leave the reading and printing to the caller.

pub mod line;
pub mod buffered;
pub mod printer;
pub mod terminal;
pub mod keys;
pub mod raw;
