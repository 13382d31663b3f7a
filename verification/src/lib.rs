//! The verified core of a terminal flashcard manager: the event-dispatch
//! step and screen/mode state machine, the incremental substring-search
//! engine used for live list filtering, and the alert and selection rules -
//! each with a proved contract.  Terminal drawing, the input task, and the
//! relational store stay outside, behind the event, snapshot, and gateway
//! boundaries.

pub mod substring;
pub mod chars;
pub mod search;
pub mod text;
pub mod alert;
pub mod confirm;
pub mod event;
pub mod domain;
pub mod gateway;
pub mod create_deck;
pub mod create_card;
pub mod statusbar;
pub mod app;
pub mod update;
pub mod outcome;
pub mod render;
pub mod laws;
