//! Laws of the state machine that span several steps: selection moves stay
//! inside the displayed list, and the confirmation flow around a deck
//! deletion issues exactly the calls it should.

use vstd::prelude::*;

use crate::app::{deck_names, App, CurrentScreen};
use crate::confirm::ConfirmAction;
use crate::domain::{Deck, DeckSet};
use crate::event::{Event, KeyCode};
use crate::gateway::GatewayCall;
use crate::outcome::{deck_deleted_step, decks_loaded_step};
use crate::update::{selected_deck, step};

verus! {

/// Selection bounds: on an empty list the pointer is empty and a move
/// changes nothing; moving down on the last row and up on the first row
/// change nothing either.
pub proof fn lemma_selection_bounds(
    pre: App,
    now: u64,
    post: App,
    cmd: Option<GatewayCall>,
    c: char,
)
    requires
        pre.inv(),
        c == 'j' || c == 'k',
        (pre.current_screen is DECKS && !(pre.mode is SEARCH)) || pre.current_screen is CARDS,
        step(pre, Event::Key(KeyCode::Char(c)), now, post, cmd),
    ensures
        pre.displayed().len() == 0 ==> pre.pointer is None && post == pre,
        (c == 'j' && (pre.pointer matches Some(i) && i as int == pre.displayed().len() - 1))
            ==> post == pre,
        (c == 'k' && pre.pointer == Some(0usize)) ==> post == pre,
        cmd is None,
{
    assert(post == (App { pointer: post.pointer, ..pre }));
    if post.pointer == pre.pointer {
        assert(post == pre);
    }
}

/// Confirm flow, arming and firing: selecting delete-deck opens the
/// confirmation for exactly the selected deck; `y` issues the cascade
/// delete for it and nothing else; its success returns to the deck list
/// and asks for a reload; and the reload replaces the cache with the
/// refreshed list, wholesale.
pub proof fn lemma_confirm_flow(
    s0: App,
    now: u64,
    s1: App,
    c1: Option<GatewayCall>,
    s2: App,
    c2: Option<GatewayCall>,
    s3: App,
    n3: Option<GatewayCall>,
    decks: Vec<Deck>,
    s4: App,
    n4: Option<GatewayCall>,
)
    requires
        s0.inv(),
        s0.current_screen is DECKS,
        !(s0.mode is SEARCH),
        selected_deck(s0) is Some,
        step(s0, Event::Key(KeyCode::Char('d')), now, s1, c1),
        step(s1, Event::Key(KeyCode::Char('y')), now, s2, c2),
        deck_deleted_step(s2, Ok(()), now, s3, n3),
        decks_loaded_step(s3, Ok(decks), now, s4, n4),
    ensures
        (s1.current_screen matches CurrentScreen::CONFIRM(p) && p.action
            == ConfirmAction::DeleteDeck(selected_deck(s0)->0.id)),
        c1 is None,
        c2 == Some(GatewayCall::DeleteDeckCascade(selected_deck(s0)->0.id)),
        s2 == s1,
        s3.current_screen is DECKS,
        n3 == Some(GatewayCall::LoadDecks),
        s4.current_screen is DECKS,
        s4.deckset == Some(DeckSet { decks }),
        deck_names(s4.deckset) == decks@.map_values(|d: Deck| d.name@),
        n4 is None,
{
}

/// Confirm flow, dismissal: `n` or escape on a delete-deck confirmation
/// returns to the deck list without any gateway call, the cached decks
/// untouched.
pub proof fn lemma_confirm_dismissed(
    pre: App,
    now: u64,
    post: App,
    cmd: Option<GatewayCall>,
    key: KeyCode,
)
    requires
        pre.inv(),
        (pre.current_screen matches CurrentScreen::CONFIRM(p) && p.action is DeleteDeck),
        key == KeyCode::Char('n') || key == KeyCode::Esc,
        step(pre, Event::Key(key), now, post, cmd),
    ensures
        post.current_screen is DECKS,
        cmd is None,
        post.deckset == pre.deckset,
        post.deck == pre.deck,
        post.alert == pre.alert,
{
}

} // verus!
