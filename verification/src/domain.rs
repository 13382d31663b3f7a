//! The in-memory deck and card records.  The persistence gateway is the
//! source of truth; the core caches whole lists and replaces them wholesale
//! on each successful reload.

use vstd::prelude::*;

verus! {

/// Relies on `uuid::Uuid::new_v4` (and `as_u128` to read it out): a freshly
/// generated random version-4 identifier.  Nothing is promised of its value.
#[verifier::external_body]
pub(crate) fn fresh_uuid() -> u128 {
    uuid::Uuid::new_v4().as_u128()
}

/// A flashcard: its identifier, optional front and back text, and the deck
/// it belongs to.
#[derive(Debug, Clone)]
pub struct Card {
    pub id: u128,
    pub front_text: Option<String>,
    pub back_text: Option<String>,
    pub deck_id: Option<u128>,
}

impl Card {
    /// A blank card with a fresh identifier, attached to no deck.
    pub fn new() -> (c: Card)
        ensures
            c.front_text is None,
            c.back_text is None,
            c.deck_id is None,
    {
        Card { id: fresh_uuid(), front_text: None, back_text: None, deck_id: None }
    }

    /// A blank card with a fresh identifier, attached to the given deck.
    pub fn new_with_deck(deck_id: u128) -> (c: Card)
        ensures
            c.front_text is None,
            c.back_text is None,
            c.deck_id == Some(deck_id),
    {
        Card { id: fresh_uuid(), front_text: None, back_text: None, deck_id: Some(deck_id) }
    }

    pub fn set_front_text(&mut self, text: String)
        ensures
            *final(self) == (Card { front_text: Some(text), ..*old(self) }),
    {
        self.front_text = Some(text);
    }

    pub fn set_back_text(&mut self, text: String)
        ensures
            *final(self) == (Card { back_text: Some(text), ..*old(self) }),
    {
        self.back_text = Some(text);
    }

    /// An exact copy.
    pub fn duplicate(&self) -> (c: Card)
        ensures
            c == *self,
    {
        Card {
            id: self.id,
            front_text: match &self.front_text {
                Some(s) => Some(s.clone()),
                None => None,
            },
            back_text: match &self.back_text {
                Some(s) => Some(s.clone()),
                None => None,
            },
            deck_id: self.deck_id,
        }
    }
}

/// The error a deck operation reports without touching the store.
#[derive(Debug, Clone, Copy, PartialEq, Eq, Structural)]
pub enum DeckError {
    CardsNotLoaded,
}

/// Two decks that agree on everything observable: identifier, name, and
/// the loaded cards, if any.
pub open spec fn same_deck(a: Deck, b: Deck) -> bool {
    &&& a.id == b.id
    &&& a.name@ == b.name@
    &&& match (a.cards, b.cards) {
        (Some(x), Some(y)) => x@ == y@,
        (None, None) => true,
        _ => false,
    }
}

/// A deck: its identifier, name, and - once loaded - its cards.
#[derive(Debug, Clone)]
pub struct Deck {
    pub id: u128,
    pub name: String,
    pub cards: Option<Vec<Card>>,
}

impl Deck {
    /// A deck with a fresh identifier and no cards loaded.
    pub fn new(name: &str) -> (d: Deck)
        ensures
            d.name@ == name@,
            d.cards is None,
    {
        Deck { id: fresh_uuid(), name: name.to_owned(), cards: None }
    }

    /// Appends a card to the loaded card list; fails when no cards are
    /// loaded.
    pub fn add(&mut self, card: Card) -> (r: Result<(), DeckError>)
        ensures
            match old(self).cards {
                Some(cs) => r is Ok && *final(self) == (Deck {
                    cards: Some(final(self).cards->0),
                    ..*old(self)
                }) && final(self).cards->0@ == cs@.push(card),
                None => r == Err::<(), DeckError>(DeckError::CardsNotLoaded) && *final(self)
                    == *old(self),
            },
    {
        match &mut self.cards {
            Some(c) => {
                c.push(card);
                Ok(())
            },
            None => Err(DeckError::CardsNotLoaded),
        }
    }

    /// A copy that agrees with the original on everything observable.
    pub fn duplicate(&self) -> (d: Deck)
        ensures
            same_deck(d, *self),
    {
        let cards = match &self.cards {
            Some(cs) => {
                let mut copy: Vec<Card> = Vec::new();
                let mut i: usize = 0;
                while i < cs.len()
                    invariant
                        i <= cs@.len(),
                        copy@ == cs@.take(i as int),
                    decreases cs@.len() - i,
                {
                    copy.push(cs[i].duplicate());
                    i = i + 1;
                    proof {
                        assert(copy@ =~= cs@.take(i as int));
                    }
                }
                proof {
                    assert(cs@.take(cs@.len() as int) =~= cs@);
                }
                Some(copy)
            },
            None => None,
        };
        Deck { id: self.id, name: self.name.clone(), cards }
    }
}

/// Every deck the store knows of, in the order the gateway returned them.
#[derive(Debug)]
pub struct DeckSet {
    pub decks: Vec<Deck>,
}

impl DeckSet {
    /// The first deck with the given identifier, if any.
    pub fn get_deck_by_id(&self, id: u128) -> (r: Option<Deck>)
        ensures
            match r {
                Some(d) => exists|i: int| 0 <= i < self.decks@.len() && #[trigger] self.decks@[i].id
                    == id && same_deck(d, self.decks@[i]),
                None => forall|i: int| 0 <= i < self.decks@.len() ==> #[trigger] self.decks@[i].id
                    != id,
            },
    {
        let mut i: usize = 0;
        while i < self.decks.len()
            invariant
                i <= self.decks@.len(),
                forall|j: int| 0 <= j < i ==> #[trigger] self.decks@[j].id != id,
            decreases self.decks@.len() - i,
        {
            if self.decks[i].id == id {
                return Some(self.decks[i].duplicate());
            }
            i = i + 1;
        }
        None
    }
}

} // verus!
