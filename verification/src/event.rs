//! The events the core consumes: key presses, timer ticks, and input
//! failures, merged into one ordered stream by the event source.

use vstd::prelude::*;

verus! {

/// The keys the core reacts to.  Anything else arrives as `Other` and is
/// ignored by every screen.
#[derive(Debug, Clone, Copy, PartialEq, Eq, Structural)]
pub enum KeyCode {
    Char(char),
    Enter,
    Esc,
    Backspace,
    Tab,
    Other,
}

/// One unit of input: a key press, a periodic tick, or an input failure.
#[derive(Debug, Clone, Copy, PartialEq, Eq, Structural)]
pub enum Event {
    Error,
    Tick,
    Key(KeyCode),
}

} // verus!
