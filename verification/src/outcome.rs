//! The outcome step: what the core does with the result of each gateway
//! call.  Every outcome produces an alert; a success may move the core to
//! the listing screen and ask for a reload, a failure keeps it where it is.

use vstd::prelude::*;

use crate::alert::AlertPriority;
use crate::app::{alert_is, sync_ptr, App, CurrentScreen};
use crate::domain::{Card, Deck, DeckSet};
use crate::gateway::{GatewayCall, PersistenceError};

verus! {

/// A fresh deck list arrived (or failed to): the cache is replaced
/// wholesale, never merged.
pub open spec fn decks_loaded_step(
    pre: App,
    result: Result<Vec<Deck>, PersistenceError>,
    now: u64,
    post: App,
    next: Option<GatewayCall>,
) -> bool {
    match result {
        Ok(decks) => {
            &&& post == (App {
                deckset: post.deckset,
                alert: post.alert,
                pointer: post.pointer,
                n_items: post.n_items,
                ..pre
            })
            &&& post.deckset == Some(DeckSet { decks })
            &&& alert_is(post.alert, "Decks loaded successfully"@, AlertPriority::Green, now)
            &&& post.pointer == sync_ptr(pre.pointer, post.displayed().len() as int)
            &&& post.n_items as int == post.displayed().len()
            &&& next is None
        },
        Err(_) => {
            &&& post == (App { alert: post.alert, ..pre })
            &&& alert_is(post.alert, "Error: Failed to load decks."@, AlertPriority::Red, now)
            &&& next is None
        },
    }
}

/// The current deck's cards arrived (or failed to).
pub open spec fn cards_loaded_step(
    pre: App,
    result: Result<Vec<Card>, PersistenceError>,
    now: u64,
    post: App,
    next: Option<GatewayCall>,
) -> bool {
    match result {
        Ok(cards) => match pre.deck {
            Some(d) => {
                &&& post == (App {
                    deck: post.deck,
                    alert: post.alert,
                    pointer: post.pointer,
                    n_items: post.n_items,
                    ..pre
                })
                &&& post.deck == Some(Deck { cards: Some(cards), ..d })
                &&& alert_is(post.alert, "Cards loaded successfully"@, AlertPriority::Green, now)
                &&& post.pointer == sync_ptr(pre.pointer, post.displayed().len() as int)
                &&& post.n_items as int == post.displayed().len()
                &&& next is None
            },
            None => post == pre && next is None,
        },
        Err(_) => {
            &&& post == (App { alert: post.alert, ..pre })
            &&& alert_is(
                post.alert,
                "Error: Failed to load cards in deck."@,
                AlertPriority::Red,
                now,
            )
            &&& next is None
        },
    }
}

/// A deck was saved (or the save failed): success returns to the deck list
/// and reloads it, failure keeps the editor open.
pub open spec fn deck_saved_step(
    pre: App,
    result: Result<u128, PersistenceError>,
    now: u64,
    post: App,
    next: Option<GatewayCall>,
) -> bool {
    match result {
        Ok(_) => {
            &&& post == (App {
                current_screen: post.current_screen,
                create_deck: None,
                alert: post.alert,
                pointer: post.pointer,
                n_items: post.n_items,
                ..pre
            })
            &&& post.current_screen is DECKS
            &&& alert_is(post.alert, "Saved deck"@, AlertPriority::Green, now)
            &&& post.pointer == sync_ptr(pre.pointer, post.displayed().len() as int)
            &&& post.n_items as int == post.displayed().len()
            &&& next == Some(GatewayCall::LoadDecks)
        },
        Err(_) => {
            &&& post == (App { alert: post.alert, ..pre })
            &&& alert_is(post.alert, "Failed to save deck!"@, AlertPriority::Red, now)
            &&& next is None
        },
    }
}

/// A card was saved (or the save failed): success returns to the card list
/// and reloads the deck, failure keeps the editor open.
pub open spec fn card_saved_step(
    pre: App,
    result: Result<(), PersistenceError>,
    now: u64,
    post: App,
    next: Option<GatewayCall>,
) -> bool {
    match result {
        Ok(_) => match pre.deck {
            Some(d) => {
                &&& post == (App {
                    current_screen: post.current_screen,
                    create_screen: None,
                    alert: post.alert,
                    pointer: post.pointer,
                    n_items: post.n_items,
                    ..pre
                })
                &&& post.current_screen is CARDS
                &&& alert_is(post.alert, "Card saved"@, AlertPriority::Green, now)
                &&& post.pointer == sync_ptr(pre.pointer, post.displayed().len() as int)
                &&& post.n_items as int == post.displayed().len()
                &&& next == Some(GatewayCall::LoadCards(d.id))
            },
            None => {
                &&& post == (App { alert: post.alert, ..pre })
                &&& alert_is(post.alert, "Card saved"@, AlertPriority::Green, now)
                &&& next is None
            },
        },
        Err(_) => {
            &&& post == (App { alert: post.alert, ..pre })
            &&& alert_is(post.alert, "Error: Failed to save card!"@, AlertPriority::Red, now)
            &&& next is None
        },
    }
}

/// A card was deleted (or the delete failed): success returns to the card
/// list and reloads the deck, failure keeps the confirmation open.
pub open spec fn card_deleted_step(
    pre: App,
    result: Result<(), PersistenceError>,
    now: u64,
    post: App,
    next: Option<GatewayCall>,
) -> bool {
    match result {
        Ok(_) => match pre.deck {
            Some(d) => {
                &&& post == (App {
                    current_screen: post.current_screen,
                    alert: post.alert,
                    pointer: post.pointer,
                    n_items: post.n_items,
                    ..pre
                })
                &&& post.current_screen is CARDS
                &&& alert_is(
                    post.alert,
                    "Deleted card from database"@,
                    AlertPriority::Green,
                    now,
                )
                &&& post.pointer == sync_ptr(pre.pointer, post.displayed().len() as int)
                &&& post.n_items as int == post.displayed().len()
                &&& next == Some(GatewayCall::LoadCards(d.id))
            },
            None => {
                &&& post == (App { alert: post.alert, ..pre })
                &&& alert_is(
                    post.alert,
                    "Deleted card from database"@,
                    AlertPriority::Green,
                    now,
                )
                &&& next is None
            },
        },
        Err(_) => {
            &&& post == (App { alert: post.alert, ..pre })
            &&& alert_is(post.alert, "Error: Failed to delete card."@, AlertPriority::Red, now)
            &&& next is None
        },
    }
}

/// A deck and its cards were deleted (or the delete failed): success
/// returns to the deck list and reloads it, failure keeps the confirmation
/// open.
pub open spec fn deck_deleted_step(
    pre: App,
    result: Result<(), PersistenceError>,
    now: u64,
    post: App,
    next: Option<GatewayCall>,
) -> bool {
    match result {
        Ok(_) => {
            &&& post == (App {
                current_screen: post.current_screen,
                alert: post.alert,
                pointer: post.pointer,
                n_items: post.n_items,
                ..pre
            })
            &&& post.current_screen is DECKS
            &&& alert_is(post.alert, "Deleted deck from database"@, AlertPriority::Green, now)
            &&& post.pointer == sync_ptr(pre.pointer, post.displayed().len() as int)
            &&& post.n_items as int == post.displayed().len()
            &&& next == Some(GatewayCall::LoadDecks)
        },
        Err(_) => {
            &&& post == (App { alert: post.alert, ..pre })
            &&& alert_is(post.alert, "Error: Failed to delete deck."@, AlertPriority::Red, now)
            &&& next is None
        },
    }
}

impl App {
    /// Takes in a freshly loaded deck list, replacing the cache wholesale.
    pub fn apply_decks_loaded(
        &mut self,
        result: Result<Vec<Deck>, PersistenceError>,
        now_ms: u64,
    ) -> (next: Option<GatewayCall>)
        requires
            old(self).inv(),
        ensures
            final(self).inv(),
            decks_loaded_step(*old(self), result, now_ms, *final(self), next),
    {
        match result {
            Ok(decks) => {
                self.deckset = Some(DeckSet { decks });
                self.set_alert("Decks loaded successfully", AlertPriority::Green, now_ms);
                self.resync();
                None
            },
            Err(_) => {
                self.set_alert("Error: Failed to load decks.", AlertPriority::Red, now_ms);
                None
            },
        }
    }

    /// Takes in the freshly loaded cards of the current deck.
    pub fn apply_cards_loaded(
        &mut self,
        result: Result<Vec<Card>, PersistenceError>,
        now_ms: u64,
    ) -> (next: Option<GatewayCall>)
        requires
            old(self).inv(),
        ensures
            final(self).inv(),
            cards_loaded_step(*old(self), result, now_ms, *final(self), next),
    {
        match result {
            Ok(cards) => {
                if self.deck.is_some() {
                    match &mut self.deck {
                        Some(d) => {
                            d.cards = Some(cards);
                        },
                        None => {},
                    }
                    self.set_alert("Cards loaded successfully", AlertPriority::Green, now_ms);
                    self.resync();
                }
                None
            },
            Err(_) => {
                self.set_alert(
                    "Error: Failed to load cards in deck.",
                    AlertPriority::Red,
                    now_ms,
                );
                None
            },
        }
    }

    /// Takes in the outcome of saving a deck.
    pub fn apply_deck_saved(
        &mut self,
        result: Result<u128, PersistenceError>,
        now_ms: u64,
    ) -> (next: Option<GatewayCall>)
        requires
            old(self).inv(),
        ensures
            final(self).inv(),
            deck_saved_step(*old(self), result, now_ms, *final(self), next),
    {
        match result {
            Ok(_) => {
                self.current_screen = CurrentScreen::DECKS;
                self.create_deck = None;
                self.set_alert("Saved deck", AlertPriority::Green, now_ms);
                self.resync();
                Some(GatewayCall::LoadDecks)
            },
            Err(_) => {
                self.set_alert("Failed to save deck!", AlertPriority::Red, now_ms);
                None
            },
        }
    }

    /// Takes in the outcome of saving a card.
    pub fn apply_card_saved(
        &mut self,
        result: Result<(), PersistenceError>,
        now_ms: u64,
    ) -> (next: Option<GatewayCall>)
        requires
            old(self).inv(),
            !(old(self).mode is SEARCH),
        ensures
            final(self).inv(),
            card_saved_step(*old(self), result, now_ms, *final(self), next),
    {
        match result {
            Ok(_) => {
                let deck_id: Option<u128> = match &self.deck {
                    Some(d) => Some(d.id),
                    None => None,
                };
                match deck_id {
                    Some(id) => {
                        self.current_screen = CurrentScreen::CARDS;
                        self.create_screen = None;
                        self.set_alert("Card saved", AlertPriority::Green, now_ms);
                        self.resync();
                        Some(GatewayCall::LoadCards(id))
                    },
                    None => {
                        self.set_alert("Card saved", AlertPriority::Green, now_ms);
                        None
                    },
                }
            },
            Err(_) => {
                self.set_alert("Error: Failed to save card!", AlertPriority::Red, now_ms);
                None
            },
        }
    }

    /// Takes in the outcome of deleting a card.
    pub fn apply_card_deleted(
        &mut self,
        result: Result<(), PersistenceError>,
        now_ms: u64,
    ) -> (next: Option<GatewayCall>)
        requires
            old(self).inv(),
            !(old(self).mode is SEARCH),
        ensures
            final(self).inv(),
            card_deleted_step(*old(self), result, now_ms, *final(self), next),
    {
        match result {
            Ok(_) => {
                let deck_id: Option<u128> = match &self.deck {
                    Some(d) => Some(d.id),
                    None => None,
                };
                match deck_id {
                    Some(id) => {
                        self.current_screen = CurrentScreen::CARDS;
                        self.set_alert("Deleted card from database", AlertPriority::Green, now_ms);
                        self.resync();
                        Some(GatewayCall::LoadCards(id))
                    },
                    None => {
                        self.set_alert("Deleted card from database", AlertPriority::Green, now_ms);
                        None
                    },
                }
            },
            Err(_) => {
                self.set_alert("Error: Failed to delete card.", AlertPriority::Red, now_ms);
                None
            },
        }
    }

    /// Takes in the outcome of deleting a deck with its cards.
    pub fn apply_deck_deleted(
        &mut self,
        result: Result<(), PersistenceError>,
        now_ms: u64,
    ) -> (next: Option<GatewayCall>)
        requires
            old(self).inv(),
        ensures
            final(self).inv(),
            deck_deleted_step(*old(self), result, now_ms, *final(self), next),
    {
        match result {
            Ok(_) => {
                self.current_screen = CurrentScreen::DECKS;
                self.set_alert("Deleted deck from database", AlertPriority::Green, now_ms);
                self.resync();
                Some(GatewayCall::LoadDecks)
            },
            Err(_) => {
                self.set_alert("Error: Failed to delete deck.", AlertPriority::Red, now_ms);
                None
            },
        }
    }
}

} // verus!
