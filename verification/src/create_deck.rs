//! The deck-creation screen: a single name field edited one character at a
//! time.

use vstd::prelude::*;

use crate::chars::{string_pop, string_push};

verus! {

/// The name entered for a deck that is about to be created.
#[derive(Debug, Clone)]
pub struct CreateDeck {
    pub name: String,
}

impl Default for CreateDeck {
    /// An empty name field.
    fn default() -> (d: Self)
        ensures
            d.name@ == Seq::<char>::empty(),
    {
        CreateDeck { name: String::new() }
    }
}

impl CreateDeck {
    /// Appends one character to the name.
    pub fn push_char(&mut self, ch: char)
        ensures
            final(self).name@ == old(self).name@.push(ch),
    {
        string_push(&mut self.name, ch);
    }

    /// Removes the last character of the name; a no-op on an empty name.
    pub fn pop_char(&mut self)
        ensures
            final(self).name@ == (if old(self).name@.len() == 0 {
                old(self).name@
            } else {
                old(self).name@.drop_last()
            }),
    {
        let _ = string_pop(&mut self.name);
    }
}

} // verus!
