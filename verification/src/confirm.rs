//! Pending destructive operations, awaiting an explicit yes or no.

use vstd::prelude::*;

verus! {

/// The destructive operation a confirmation is about, with the record it
/// applies to.
#[derive(Debug, Clone, Copy, PartialEq, Eq, Structural)]
pub enum ConfirmAction {
    DeleteCard(u128),
    DeleteDeck(u128),
}

/// The confirmation dialog: its question and the action it guards.
#[derive(Debug, Clone)]
pub struct ConfirmPopup {
    pub text: String,
    pub action: ConfirmAction,
}

} // verus!
