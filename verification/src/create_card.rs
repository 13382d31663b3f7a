//! The card-creation screen: front and back text fields, one of them
//! active, edited one character at a time.

use vstd::prelude::*;

use crate::chars::{string_pop, string_push};
use crate::domain::Card;

verus! {

/// Which text field of the card editor is active.
#[derive(Debug, Clone, Copy, PartialEq, Eq, Structural)]
pub enum CurrentlyEditing {
    FrontText,
    BackText,
    Saving,
}

/// The card being created or edited: the underlying record, the text of
/// both fields, and which field is active.
#[derive(Debug, Clone)]
pub struct CreateCard {
    pub card: Card,
    pub state: CurrentlyEditing,
    pub front_text: String,
    pub back_text: String,
}

impl CreateCard {
    /// An editor pre-populated from an existing card: its text fields start
    /// out as the card's texts (empty where the card has none), with the
    /// front field active.
    pub fn from_card(card: &Card) -> (r: Self)
        ensures
            r.card == *card,
            r.state == CurrentlyEditing::FrontText,
            r.front_text@ == (match card.front_text {
                Some(s) => s@,
                None => Seq::<char>::empty(),
            }),
            r.back_text@ == (match card.back_text {
                Some(s) => s@,
                None => Seq::<char>::empty(),
            }),
    {
        CreateCard {
            card: card.duplicate(),
            state: CurrentlyEditing::FrontText,
            front_text: match &card.front_text {
                Some(s) => s.clone(),
                None => String::new(),
            },
            back_text: match &card.back_text {
                Some(s) => s.clone(),
                None => String::new(),
            },
        }
    }

    /// The text of the active field, or nothing while saving.
    pub fn current_text_field(&self) -> (r: Option<String>)
        ensures
            match self.state {
                CurrentlyEditing::FrontText => r matches Some(s) && s@ == self.front_text@,
                CurrentlyEditing::BackText => r matches Some(s) && s@ == self.back_text@,
                CurrentlyEditing::Saving => r is None,
            },
    {
        match self.state {
            CurrentlyEditing::FrontText => Some(self.front_text.clone()),
            CurrentlyEditing::BackText => Some(self.back_text.clone()),
            CurrentlyEditing::Saving => None,
        }
    }

    /// Makes the other text field active: front goes to back, anything else
    /// to front.
    pub fn toggle_field(&mut self)
        ensures
            *final(self) == (CreateCard { state: final(self).state, ..*old(self) }),
            final(self).state == (match old(self).state {
                CurrentlyEditing::FrontText => CurrentlyEditing::BackText,
                _ => CurrentlyEditing::FrontText,
            }),
    {
        self.state = match self.state {
            CurrentlyEditing::FrontText => CurrentlyEditing::BackText,
            _ => CurrentlyEditing::FrontText,
        };
    }

    /// Appends one character to the active field; a no-op while saving.
    pub fn push_char(&mut self, ch: char)
        ensures
            *final(self) == (CreateCard {
                front_text: final(self).front_text,
                back_text: final(self).back_text,
                ..*old(self)
            }),
            final(self).front_text@ == (if old(self).state is FrontText {
                old(self).front_text@.push(ch)
            } else {
                old(self).front_text@
            }),
            final(self).back_text@ == (if old(self).state is BackText {
                old(self).back_text@.push(ch)
            } else {
                old(self).back_text@
            }),
    {
        match self.state {
            CurrentlyEditing::FrontText => string_push(&mut self.front_text, ch),
            CurrentlyEditing::BackText => string_push(&mut self.back_text, ch),
            CurrentlyEditing::Saving => {},
        }
    }

    /// Removes the last character of the active field; a no-op while saving
    /// or on an empty field.
    pub fn pop_char(&mut self)
        ensures
            *final(self) == (CreateCard {
                front_text: final(self).front_text,
                back_text: final(self).back_text,
                ..*old(self)
            }),
            final(self).front_text@ == (if old(self).state is FrontText
                && old(self).front_text@.len() > 0 {
                old(self).front_text@.drop_last()
            } else {
                old(self).front_text@
            }),
            final(self).back_text@ == (if old(self).state is BackText
                && old(self).back_text@.len() > 0 {
                old(self).back_text@.drop_last()
            } else {
                old(self).back_text@
            }),
    {
        match self.state {
            CurrentlyEditing::FrontText => {
                let _ = string_pop(&mut self.front_text);
            },
            CurrentlyEditing::BackText => {
                let _ = string_pop(&mut self.back_text);
            },
            CurrentlyEditing::Saving => {},
        }
    }

    /// The card as it would be saved: the record with both text fields
    /// filled in from the editor.
    pub fn assemble_card(&self) -> (c: Card)
        ensures
            c.id == self.card.id,
            c.deck_id == self.card.deck_id,
            c.front_text matches Some(s) && s@ == self.front_text@,
            c.back_text matches Some(s) && s@ == self.back_text@,
    {
        Card {
            id: self.card.id,
            deck_id: self.card.deck_id,
            front_text: Some(self.front_text.clone()),
            back_text: Some(self.back_text.clone()),
        }
    }
}

} // verus!
