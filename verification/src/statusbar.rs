//! The status bar shown under every screen past the splash: it names the
//! current input mode.

use vstd::prelude::*;

use crate::app::Mode;

verus! {

/// The status bar's state: the mode it displays.
#[derive(Debug)]
pub struct StatusBar {
    pub mode: Mode,
}

impl StatusBar {
    pub fn new(mode: Mode) -> (s: Self)
        ensures
            s == (StatusBar { mode }),
    {
        StatusBar { mode }
    }
}

} // verus!
