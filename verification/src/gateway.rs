//! The persistence gateway boundary.  The core never talks to the store
//! itself: its update step hands back a `GatewayCall`, the surrounding loop
//! performs it, and the outcome comes back through the core's outcome
//! handlers.

use vstd::prelude::*;

use crate::domain::Card;

verus! {

/// Why a gateway call failed.  Every variant is recovered locally: it
/// becomes a transient alert and the core stays on its current screen.
#[derive(Debug, Clone, Copy, PartialEq, Eq, Structural)]
pub enum PersistenceError {
    NotFound,
    Conflict,
    ConnectionFailure,
    Other,
}

/// One call into the persistence gateway.  The core issues at most one at a
/// time, and never while another is outstanding.
#[derive(Debug, Clone)]
pub enum GatewayCall {
    /// Load every deck, without cards.
    LoadDecks,
    /// Load the cards of the deck with this identifier.
    LoadCards(u128),
    /// Save a new deck under this name; fails with `Conflict` on a
    /// duplicate name.
    SaveDeck(String),
    /// Insert or update this card, keyed by its identifier.
    SaveCard(Card),
    /// Delete the card with this identifier.
    DeleteCard(u128),
    /// Delete the deck with this identifier, its cards first.
    DeleteDeckCascade(u128),
}

} // verus!
