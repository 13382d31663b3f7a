//! The input step: one event in, at most one gateway call out.  The
//! transition of every screen and mode is written down as a relation
//! between the state before and after, and `update` is proved to follow it.

use vstd::prelude::*;
use vstd::string::StringExecFns;

use crate::app::{
    alert_is, card_fronts, deck_names, step_down, step_up, sync_ptr, App, CurrentScreen, Mode,
};
use crate::alert::AlertPriority;
use crate::confirm::{ConfirmAction, ConfirmPopup};
use crate::create_deck::CreateDeck;
use crate::domain::{Card, Deck};
use crate::event::{Event, KeyCode};
use crate::gateway::GatewayCall;
use crate::search::Searcher;
use crate::statusbar::StatusBar;

verus! {

/// The deck the pointer rests on: the row's deck, or the first deck where
/// nothing is selected yet, or nothing when the list is empty or unloaded.
pub open spec fn selected_deck(pre: App) -> Option<Deck> {
    match pre.deckset {
        Some(ds) => {
            let idx: int = match pre.pointer {
                Some(i) => i as int,
                None => 0,
            };
            if idx < ds.decks@.len() {
                Some(ds.decks@[idx])
            } else {
                None
            }
        },
        None => None,
    }
}

/// The card the pointer rests on, by the same rule.
pub open spec fn selected_card(pre: App) -> Option<Card> {
    match pre.deck {
        Some(d) => match d.cards {
            Some(cs) => {
                let idx: int = match pre.pointer {
                    Some(i) => i as int,
                    None => 0,
                };
                if idx < cs@.len() {
                    Some(cs@[idx])
                } else {
                    None
                }
            },
            None => None,
        },
        None => None,
    }
}

/// The question asked before a deck is deleted.
pub open spec fn delete_deck_question(name: Seq<char>) -> Seq<char> {
    "Are you sure you want to delete deck '"@ + name
        + "'?\n All of its cards will be also be deleted!"@
}

/// Any key on the splash screen: show the status bar, move to the deck
/// list, and ask for the initial deck load.
pub open spec fn step_welcome(pre: App, post: App, cmd: Option<GatewayCall>) -> bool {
    &&& post == (App {
        current_screen: post.current_screen,
        statusbar: post.statusbar,
        pointer: post.pointer,
        n_items: post.n_items,
        ..pre
    })
    &&& post.current_screen is DECKS
    &&& (post.statusbar matches Some(sb) && sb.mode is NORMAL)
    &&& post.pointer == sync_ptr(pre.pointer, post.displayed().len() as int)
    &&& post.n_items as int == post.displayed().len()
    &&& cmd == Some(GatewayCall::LoadDecks)
}

/// The deck list outside search mode: navigation, creation, deletion,
/// drill-in, and entering search.
pub open spec fn step_decks_normal(
    pre: App,
    key: KeyCode,
    now: u64,
    post: App,
    cmd: Option<GatewayCall>,
) -> bool {
    match key {
        KeyCode::Char(c) => if c == 'q' {
            post == (App { should_quit: true, ..pre }) && cmd is None
        } else if c == 'j' {
            post == (App { pointer: step_down(pre.pointer, pre.n_items as int), ..pre })
                && cmd is None
        } else if c == 'k' {
            post == (App { pointer: step_up(pre.pointer), ..pre }) && cmd is None
        } else if c == 'n' {
            &&& post == (App {
                current_screen: post.current_screen,
                create_deck: post.create_deck,
                pointer: None,
                n_items: 0,
                ..pre
            })
            &&& post.current_screen is CreateDeck
            &&& (post.create_deck matches Some(cd) && cd.name@ == Seq::<char>::empty())
            &&& cmd is None
        } else if c == 'd' {
            match selected_deck(pre) {
                Some(d) => {
                    &&& post == (App {
                        current_screen: post.current_screen,
                        pointer: None,
                        n_items: 0,
                        ..pre
                    })
                    &&& (post.current_screen matches CurrentScreen::CONFIRM(p)
                        && p.action == ConfirmAction::DeleteDeck(d.id)
                        && p.text@ == delete_deck_question(d.name@))
                    &&& cmd is None
                },
                None => {
                    &&& post == (App { alert: post.alert, ..pre })
                    &&& alert_is(post.alert, "No deck selected"@, AlertPriority::Yellow, now)
                    &&& cmd is None
                },
            }
        } else if c == '/' {
            &&& post == (App { mode: post.mode, pointer: post.pointer, n_items: post.n_items, ..pre })
            &&& (post.mode matches Mode::SEARCH(sr) && sr.wf() && sr.pattern()
                == Seq::<char>::empty() && sr.candidates() == deck_names(pre.deckset))
            &&& post.pointer == sync_ptr(pre.pointer, post.displayed().len() as int)
            &&& post.n_items as int == post.displayed().len()
            &&& cmd is None
        } else {
            post == pre && cmd is None
        },
        KeyCode::Enter => match selected_deck(pre) {
            Some(d) => {
                &&& post == (App {
                    current_screen: post.current_screen,
                    deck: post.deck,
                    pointer: None,
                    n_items: post.n_items,
                    ..pre
                })
                &&& post.current_screen is CARDS
                &&& (post.deck matches Some(nd) && nd.id == d.id && nd.name@ == d.name@
                    && nd.cards is None)
                &&& post.n_items == 0
                &&& cmd == Some(GatewayCall::LoadCards(d.id))
            },
            None => post == pre && cmd is None,
        },
        _ => post == pre && cmd is None,
    }
}

/// The deck list in search mode: characters and backspace edit the query
/// and refilter; escape returns to normal mode.
pub open spec fn step_decks_search(
    pre: App,
    key: KeyCode,
    post: App,
    cmd: Option<GatewayCall>,
) -> bool {
    match pre.mode {
        Mode::SEARCH(sr) => match key {
            KeyCode::Esc => {
                &&& post == (App {
                    mode: post.mode,
                    pointer: post.pointer,
                    n_items: post.n_items,
                    ..pre
                })
                &&& post.mode is NORMAL
                &&& post.pointer == sync_ptr(pre.pointer, post.displayed().len() as int)
                &&& post.n_items as int == post.displayed().len()
                &&& cmd is None
            },
            KeyCode::Char(c) => {
                &&& post == (App {
                    mode: post.mode,
                    pointer: post.pointer,
                    n_items: post.n_items,
                    ..pre
                })
                &&& (post.mode matches Mode::SEARCH(sr2) && sr2.wf() && sr2.pattern()
                    == sr.pattern().push(c) && sr2.candidates() == sr.candidates())
                &&& post.pointer == sync_ptr(pre.pointer, post.displayed().len() as int)
                &&& post.n_items as int == post.displayed().len()
                &&& cmd is None
            },
            KeyCode::Backspace => {
                &&& post == (App {
                    mode: post.mode,
                    pointer: post.pointer,
                    n_items: post.n_items,
                    ..pre
                })
                &&& (post.mode matches Mode::SEARCH(sr2) && sr2.wf() && sr2.pattern() == (
                if sr.pattern().len() == 0 {
                    sr.pattern()
                } else {
                    sr.pattern().drop_last()
                }) && sr2.candidates() == sr.candidates())
                &&& post.pointer == sync_ptr(pre.pointer, post.displayed().len() as int)
                &&& post.n_items as int == post.displayed().len()
                &&& cmd is None
            },
            _ => post == pre && cmd is None,
        },
        _ => false,
    }
}

/// The card list: navigation, back, creation, deletion, and editing an
/// existing card.
pub open spec fn step_cards(
    pre: App,
    key: KeyCode,
    now: u64,
    post: App,
    cmd: Option<GatewayCall>,
) -> bool {
    match key {
        KeyCode::Char(c) => if c == 'q' {
            post == (App { should_quit: true, ..pre }) && cmd is None
        } else if c == 'j' {
            post == (App { pointer: step_down(pre.pointer, pre.n_items as int), ..pre })
                && cmd is None
        } else if c == 'k' {
            post == (App { pointer: step_up(pre.pointer), ..pre }) && cmd is None
        } else if c == 'b' {
            &&& post == (App {
                current_screen: post.current_screen,
                pointer: post.pointer,
                n_items: post.n_items,
                ..pre
            })
            &&& post.current_screen is DECKS
            &&& post.pointer == sync_ptr(pre.pointer, post.displayed().len() as int)
            &&& post.n_items as int == post.displayed().len()
            &&& cmd is None
        } else if c == 'n' {
            match pre.deck {
                Some(d) => {
                    &&& post == (App {
                        current_screen: post.current_screen,
                        create_screen: post.create_screen,
                        pointer: None,
                        n_items: 0,
                        ..pre
                    })
                    &&& post.current_screen is CreateCard
                    &&& (post.create_screen matches Some(cc) && cc.state is FrontText
                        && cc.front_text@ == Seq::<char>::empty() && cc.back_text@
                        == Seq::<char>::empty() && cc.card.deck_id == Some(d.id)
                        && cc.card.front_text is None && cc.card.back_text is None)
                    &&& cmd is None
                },
                None => post == pre && cmd is None,
            }
        } else if c == 'd' {
            if pre.deck is Some {
                match selected_card(pre) {
                    Some(card) => {
                        &&& post == (App {
                            current_screen: post.current_screen,
                            pointer: None,
                            n_items: 0,
                            ..pre
                        })
                        &&& (post.current_screen matches CurrentScreen::CONFIRM(p)
                            && p.action == ConfirmAction::DeleteCard(card.id)
                            && p.text@ == "Are you sure you want to delete this card?"@)
                        &&& cmd is None
                    },
                    None => {
                        &&& post == (App { alert: post.alert, ..pre })
                        &&& alert_is(
                            post.alert,
                            "Warning: No card selected"@,
                            AlertPriority::Yellow,
                            now,
                        )
                        &&& cmd is None
                    },
                }
            } else {
                post == pre && cmd is None
            }
        } else {
            post == pre && cmd is None
        },
        KeyCode::Enter => if pre.deck is Some {
            match selected_card(pre) {
                Some(card) => {
                    &&& post == (App {
                        current_screen: post.current_screen,
                        create_screen: post.create_screen,
                        pointer: None,
                        n_items: 0,
                        ..pre
                    })
                    &&& post.current_screen is CreateCard
                    &&& (post.create_screen matches Some(cc) && cc.card == card
                        && cc.state is FrontText && cc.front_text@ == front_text_of(card)
                        && cc.back_text@ == back_text_of(card))
                    &&& cmd is None
                },
                None => {
                    &&& post == (App { alert: post.alert, ..pre })
                    &&& alert_is(
                        post.alert,
                        "Warning: No card selected"@,
                        AlertPriority::Yellow,
                        now,
                    )
                    &&& cmd is None
                },
            }
        } else {
            post == pre && cmd is None
        },
        _ => post == pre && cmd is None,
    }
}

/// The front text a card editor starts from.
pub open spec fn front_text_of(c: Card) -> Seq<char> {
    match c.front_text {
        Some(s) => s@,
        None => Seq::<char>::empty(),
    }
}

/// The back text a card editor starts from.
pub open spec fn back_text_of(c: Card) -> Seq<char> {
    match c.back_text {
        Some(s) => s@,
        None => Seq::<char>::empty(),
    }
}

/// The deck-creation screen: enter saves, escape discards, `i` starts text
/// entry, and in insert mode keys edit the name.
pub open spec fn step_create_deck(
    pre: App,
    key: KeyCode,
    post: App,
    cmd: Option<GatewayCall>,
) -> bool {
    match pre.create_deck {
        Some(cd) => match pre.mode {
            Mode::NORMAL => match key {
                KeyCode::Enter => post == pre && (cmd matches Some(GatewayCall::SaveDeck(s))
                    && s@ == cd.name@),
                KeyCode::Char(c) => if c == 'i' {
                    post == (App { mode: post.mode, ..pre }) && post.mode is INSERT
                        && cmd is None
                } else if c == 'q' {
                    post == (App { should_quit: true, ..pre }) && cmd is None
                } else {
                    post == pre && cmd is None
                },
                KeyCode::Esc => {
                    &&& post == (App {
                        current_screen: post.current_screen,
                        create_deck: None,
                        pointer: post.pointer,
                        n_items: post.n_items,
                        ..pre
                    })
                    &&& post.current_screen is DECKS
                    &&& post.pointer == sync_ptr(pre.pointer, post.displayed().len() as int)
                    &&& post.n_items as int == post.displayed().len()
                    &&& cmd is None
                },
                _ => post == pre && cmd is None,
            },
            Mode::INSERT => match key {
                KeyCode::Backspace => {
                    &&& post == (App { create_deck: post.create_deck, ..pre })
                    &&& (post.create_deck matches Some(cd2) && cd2.name@ == (
                    if cd.name@.len() == 0 {
                        cd.name@
                    } else {
                        cd.name@.drop_last()
                    }))
                    &&& cmd is None
                },
                KeyCode::Char(c) => {
                    &&& post == (App { create_deck: post.create_deck, ..pre })
                    &&& (post.create_deck matches Some(cd2) && cd2.name@ == cd.name@.push(c))
                    &&& cmd is None
                },
                KeyCode::Esc => post == (App { mode: post.mode, ..pre }) && post.mode is NORMAL
                    && cmd is None,
                _ => post == pre && cmd is None,
            },
            Mode::SEARCH(_) => post == pre && cmd is None,
        },
        None => post == pre && cmd is None,
    }
}

/// The card-creation screen: tab switches fields, enter saves, escape
/// discards or leaves insert mode, and in insert mode keys edit the active
/// field.
pub open spec fn step_create_card(
    pre: App,
    key: KeyCode,
    post: App,
    cmd: Option<GatewayCall>,
) -> bool {
    match pre.create_screen {
        Some(cc) => match pre.mode {
            Mode::NORMAL => match key {
                KeyCode::Char(c) => if c == 'q' {
                    post == (App { should_quit: true, ..pre }) && cmd is None
                } else if c == 'i' {
                    post == (App { mode: post.mode, ..pre }) && post.mode is INSERT
                        && cmd is None
                } else {
                    post == pre && cmd is None
                },
                KeyCode::Tab => {
                    &&& post == (App { create_screen: post.create_screen, ..pre })
                    &&& (post.create_screen matches Some(cc2) && cc2 == (
                    crate::create_card::CreateCard {
                        state: cc2.state,
                        ..cc
                    }) && cc2.state == (match cc.state {
                        crate::create_card::CurrentlyEditing::FrontText
                            => crate::create_card::CurrentlyEditing::BackText,
                        _ => crate::create_card::CurrentlyEditing::FrontText,
                    }))
                    &&& cmd is None
                },
                KeyCode::Enter => if pre.deck is Some {
                    post == pre && (cmd matches Some(GatewayCall::SaveCard(c))
                        && c.id == cc.card.id && c.deck_id == cc.card.deck_id
                        && (c.front_text matches Some(f) && f@ == cc.front_text@)
                        && (c.back_text matches Some(b) && b@ == cc.back_text@))
                } else {
                    post == pre && cmd is None
                },
                KeyCode::Esc => {
                    &&& post == (App {
                        current_screen: post.current_screen,
                        create_screen: None,
                        pointer: post.pointer,
                        n_items: post.n_items,
                        ..pre
                    })
                    &&& post.current_screen is CARDS
                    &&& post.pointer == sync_ptr(pre.pointer, post.displayed().len() as int)
                    &&& post.n_items as int == post.displayed().len()
                    &&& cmd is None
                },
                _ => post == pre && cmd is None,
            },
            Mode::INSERT => if cc.state is Saving {
                post == pre && cmd is None
            } else {
                match key {
                    KeyCode::Esc => post == (App { mode: post.mode, ..pre })
                        && post.mode is NORMAL && cmd is None,
                    KeyCode::Backspace => {
                        &&& post == (App { create_screen: post.create_screen, ..pre })
                        &&& (post.create_screen matches Some(cc2) && cc2 == (
                        crate::create_card::CreateCard {
                            front_text: cc2.front_text,
                            back_text: cc2.back_text,
                            ..cc
                        }) && cc2.front_text@ == (if cc.state is FrontText
                            && cc.front_text@.len() > 0 {
                            cc.front_text@.drop_last()
                        } else {
                            cc.front_text@
                        }) && cc2.back_text@ == (if cc.state is BackText
                            && cc.back_text@.len() > 0 {
                            cc.back_text@.drop_last()
                        } else {
                            cc.back_text@
                        }))
                        &&& cmd is None
                    },
                    KeyCode::Enter => {
                        &&& post == (App { create_screen: post.create_screen, ..pre })
                        &&& (post.create_screen matches Some(cc2) && cc2 == (
                        crate::create_card::CreateCard {
                            front_text: cc2.front_text,
                            back_text: cc2.back_text,
                            ..cc
                        }) && cc2.front_text@ == (if cc.state is FrontText {
                            cc.front_text@.push('\n')
                        } else {
                            cc.front_text@
                        }) && cc2.back_text@ == (if cc.state is BackText {
                            cc.back_text@.push('\n')
                        } else {
                            cc.back_text@
                        }))
                        &&& cmd is None
                    },
                    KeyCode::Char(c) => {
                        &&& post == (App { create_screen: post.create_screen, ..pre })
                        &&& (post.create_screen matches Some(cc2) && cc2 == (
                        crate::create_card::CreateCard {
                            front_text: cc2.front_text,
                            back_text: cc2.back_text,
                            ..cc
                        }) && cc2.front_text@ == (if cc.state is FrontText {
                            cc.front_text@.push(c)
                        } else {
                            cc.front_text@
                        }) && cc2.back_text@ == (if cc.state is BackText {
                            cc.back_text@.push(c)
                        } else {
                            cc.back_text@
                        }))
                        &&& cmd is None
                    },
                    _ => post == pre && cmd is None,
                }
            },
            Mode::SEARCH(_) => post == pre && cmd is None,
        },
        None => post == pre && cmd is None,
    }
}

/// The confirmation screen: `y` issues the destructive call and waits for
/// its outcome; `n` or escape returns to the screen that opened it without
/// any call.
pub open spec fn step_confirm(pre: App, key: KeyCode, post: App, cmd: Option<GatewayCall>) -> bool {
    match pre.current_screen {
        CurrentScreen::CONFIRM(p) => match key {
            KeyCode::Char(c) => if c == 'y' {
                post == pre && cmd == Some(match p.action {
                    ConfirmAction::DeleteCard(id) => GatewayCall::DeleteCard(id),
                    ConfirmAction::DeleteDeck(id) => GatewayCall::DeleteDeckCascade(id),
                })
            } else if c == 'n' {
                confirm_dismissed(pre, p.action, post, cmd)
            } else {
                post == pre && cmd is None
            },
            KeyCode::Esc => confirm_dismissed(pre, p.action, post, cmd),
            _ => post == pre && cmd is None,
        },
        _ => false,
    }
}

/// Cancelling a confirmation: back to the list the action came from, with
/// no gateway call.
pub open spec fn confirm_dismissed(
    pre: App,
    action: ConfirmAction,
    post: App,
    cmd: Option<GatewayCall>,
) -> bool {
    &&& post == (App {
        current_screen: post.current_screen,
        pointer: post.pointer,
        n_items: post.n_items,
        ..pre
    })
    &&& (match action {
        ConfirmAction::DeleteCard(_) => post.current_screen is CARDS,
        ConfirmAction::DeleteDeck(_) => post.current_screen is DECKS,
    })
    &&& post.pointer == sync_ptr(pre.pointer, post.displayed().len() as int)
    &&& post.n_items as int == post.displayed().len()
    &&& cmd is None
}

/// The whole input step: keys are dispatched by screen and mode; ticks and
/// input errors change nothing.
pub open spec fn step(
    pre: App,
    event: Event,
    now: u64,
    post: App,
    cmd: Option<GatewayCall>,
) -> bool {
    match event {
        Event::Key(key) => match pre.current_screen {
            CurrentScreen::WELCOME => step_welcome(pre, post, cmd),
            CurrentScreen::DECKS => match pre.mode {
                Mode::SEARCH(_) => step_decks_search(pre, key, post, cmd),
                _ => step_decks_normal(pre, key, now, post, cmd),
            },
            CurrentScreen::CARDS => step_cards(pre, key, now, post, cmd),
            CurrentScreen::CreateDeck => step_create_deck(pre, key, post, cmd),
            CurrentScreen::CreateCard => step_create_card(pre, key, post, cmd),
            CurrentScreen::CONFIRM(_) => step_confirm(pre, key, post, cmd),
            CurrentScreen::REVIEW => post == pre && cmd is None,
        },
        _ => post == pre && cmd is None,
    }
}

impl App {
    /// Handles one event and returns the gateway call to perform, if the
    /// transition asks for one.
    pub fn update(&mut self, event: Event, now_ms: u64) -> (cmd: Option<GatewayCall>)
        requires
            old(self).inv(),
        ensures
            final(self).inv(),
            step(*old(self), event, now_ms, *final(self), cmd),
    {
        match event {
            Event::Key(key) => {
                if matches!(self.current_screen, CurrentScreen::WELCOME) {
                    self.on_welcome()
                } else if matches!(self.current_screen, CurrentScreen::DECKS) {
                    if matches!(self.mode, Mode::SEARCH(_)) {
                        self.on_decks_search(key)
                    } else {
                        self.on_decks_normal(key, now_ms)
                    }
                } else if matches!(self.current_screen, CurrentScreen::CARDS) {
                    self.on_cards(key, now_ms)
                } else if matches!(self.current_screen, CurrentScreen::CreateDeck) {
                    self.on_create_deck(key)
                } else if matches!(self.current_screen, CurrentScreen::CreateCard) {
                    self.on_create_card(key)
                } else if matches!(self.current_screen, CurrentScreen::CONFIRM(_)) {
                    self.on_confirm(key)
                } else {
                    None
                }
            },
            _ => None,
        }
    }

    fn on_welcome(&mut self) -> (cmd: Option<GatewayCall>)
        requires
            old(self).inv(),
            old(self).current_screen is WELCOME,
        ensures
            final(self).inv(),
            step_welcome(*old(self), *final(self), cmd),
    {
        self.statusbar = Some(StatusBar::new(Mode::NORMAL));
        self.current_screen = CurrentScreen::DECKS;
        self.resync();
        Some(GatewayCall::LoadDecks)
    }

    fn on_decks_normal(&mut self, key: KeyCode, now_ms: u64) -> (cmd: Option<GatewayCall>)
        requires
            old(self).inv(),
            old(self).current_screen is DECKS,
            !(old(self).mode is SEARCH),
        ensures
            final(self).inv(),
            step_decks_normal(*old(self), key, now_ms, *final(self), cmd),
    {
        match key {
            KeyCode::Char(c) => if c == 'q' {
                self.should_quit = true;
                None
            } else if c == 'j' {
                self.move_down();
                None
            } else if c == 'k' {
                self.move_up();
                None
            } else if c == 'n' {
                self.create_deck = Some(CreateDeck::default());
                self.current_screen = CurrentScreen::CreateDeck;
                self.pointer = None;
                self.n_items = 0;
                None
            } else if c == 'd' {
                let sel: Option<(u128, String)> = self.read_selected_deck();
                match sel {
                    Some((id, name)) => {
                        let mut text = String::from_str(
                            "Are you sure you want to delete deck '",
                        );
                        text.append(name.as_str());
                        text.append("'?\n All of its cards will be also be deleted!");
                        self.current_screen = CurrentScreen::CONFIRM(ConfirmPopup {
                            text,
                            action: ConfirmAction::DeleteDeck(id),
                        });
                        self.pointer = None;
                        self.n_items = 0;
                        None
                    },
                    None => {
                        self.set_alert("No deck selected", AlertPriority::Yellow, now_ms);
                        None
                    },
                }
            } else if c == '/' {
                let names: Vec<&str> = match &self.deckset {
                    Some(ds) => {
                        let mut names: Vec<&str> = Vec::new();
                        let mut i: usize = 0;
                        while i < ds.decks.len()
                            invariant
                                i <= ds.decks@.len(),
                                names@.len() == i,
                                forall|j: int| 0 <= j < i ==> #[trigger] names@[j]@
                                    == ds.decks@[j].name@,
                            decreases ds.decks@.len() - i,
                        {
                            names.push(ds.decks[i].name.as_str());
                            i = i + 1;
                        }
                        names
                    },
                    None => Vec::new(),
                };
                let ghost names_view = names@.map_values(|s: &str| s@);
                proof {
                    assert(names_view =~= deck_names(self.deckset));
                }
                let searcher = Searcher::new(names);
                self.mode = Mode::SEARCH(searcher);
                self.resync();
                None
            } else {
                None
            },
            KeyCode::Enter => {
                let sel: Option<(u128, String)> = self.read_selected_deck();
                match sel {
                    Some((id, name)) => {
                        self.deck = Some(Deck { id, name, cards: None });
                        self.pointer = None;
                        self.n_items = 0;
                        self.current_screen = CurrentScreen::CARDS;
                        Some(GatewayCall::LoadCards(id))
                    },
                    None => None,
                }
            },
            _ => None,
        }
    }

    /// The identifier and name of the deck the pointer rests on.
    fn read_selected_deck(&self) -> (r: Option<(u128, String)>)
        ensures
            match selected_deck(*self) {
                Some(d) => r matches Some(p) && p.0 == d.id && p.1@ == d.name@,
                None => r is None,
            },
    {
        match &self.deckset {
            Some(ds) => {
                let idx: usize = match self.pointer {
                    Some(i) => i,
                    None => 0,
                };
                if idx < ds.decks.len() {
                    Some((ds.decks[idx].id, ds.decks[idx].name.clone()))
                } else {
                    None
                }
            },
            None => None,
        }
    }

    /// A copy of the card the pointer rests on.
    fn read_selected_card(&self) -> (r: Option<Card>)
        ensures
            match selected_card(*self) {
                Some(c) => r == Some(c),
                None => r is None,
            },
    {
        match &self.deck {
            Some(d) => match &d.cards {
                Some(cs) => {
                    let idx: usize = match self.pointer {
                        Some(i) => i,
                        None => 0,
                    };
                    if idx < cs.len() {
                        Some(cs[idx].duplicate())
                    } else {
                        None
                    }
                },
                None => None,
            },
            None => None,
        }
    }

    fn on_decks_search(&mut self, key: KeyCode) -> (cmd: Option<GatewayCall>)
        requires
            old(self).inv(),
            old(self).current_screen is DECKS,
            old(self).mode is SEARCH,
        ensures
            final(self).inv(),
            step_decks_search(*old(self), key, *final(self), cmd),
    {
        match key {
            KeyCode::Esc => {
                self.mode = Mode::NORMAL;
                self.resync();
                None
            },
            KeyCode::Char(c) => {
                match &mut self.mode {
                    Mode::SEARCH(sr) => {
                        sr.push_and_search(c);
                    },
                    _ => {},
                }
                self.resync();
                None
            },
            KeyCode::Backspace => {
                match &mut self.mode {
                    Mode::SEARCH(sr) => {
                        sr.pop_and_search();
                    },
                    _ => {},
                }
                self.resync();
                None
            },
            _ => None,
        }
    }

    fn on_cards(&mut self, key: KeyCode, now_ms: u64) -> (cmd: Option<GatewayCall>)
        requires
            old(self).inv(),
            old(self).current_screen is CARDS,
        ensures
            final(self).inv(),
            step_cards(*old(self), key, now_ms, *final(self), cmd),
    {
        match key {
            KeyCode::Char(c) => if c == 'q' {
                self.should_quit = true;
                None
            } else if c == 'j' {
                self.move_down();
                None
            } else if c == 'k' {
                self.move_up();
                None
            } else if c == 'b' {
                self.current_screen = CurrentScreen::DECKS;
                self.resync();
                None
            } else if c == 'n' {
                let deck_id: Option<u128> = match &self.deck {
                    Some(d) => Some(d.id),
                    None => None,
                };
                match deck_id {
                    Some(id) => {
                        let card = Card::new_with_deck(id);
                        self.create_screen = Some(crate::create_card::CreateCard::from_card(
                            &card,
                        ));
                        self.current_screen = CurrentScreen::CreateCard;
                        self.pointer = None;
                        self.n_items = 0;
                        None
                    },
                    None => None,
                }
            } else if c == 'd' {
                if self.deck.is_some() {
                    let sel = self.read_selected_card();
                    match sel {
                        Some(card) => {
                            self.current_screen = CurrentScreen::CONFIRM(ConfirmPopup {
                                text: String::from_str(
                                    "Are you sure you want to delete this card?",
                                ),
                                action: ConfirmAction::DeleteCard(card.id),
                            });
                            self.pointer = None;
                            self.n_items = 0;
                            None
                        },
                        None => {
                            self.set_alert(
                                "Warning: No card selected",
                                AlertPriority::Yellow,
                                now_ms,
                            );
                            None
                        },
                    }
                } else {
                    None
                }
            } else {
                None
            },
            KeyCode::Enter => {
                if self.deck.is_some() {
                    let sel = self.read_selected_card();
                    match sel {
                        Some(card) => {
                            self.create_screen = Some(crate::create_card::CreateCard::from_card(
                                &card,
                            ));
                            self.current_screen = CurrentScreen::CreateCard;
                            self.pointer = None;
                            self.n_items = 0;
                            None
                        },
                        None => {
                            self.set_alert(
                                "Warning: No card selected",
                                AlertPriority::Yellow,
                                now_ms,
                            );
                            None
                        },
                    }
                } else {
                    None
                }
            },
            _ => None,
        }
    }

    fn on_create_deck(&mut self, key: KeyCode) -> (cmd: Option<GatewayCall>)
        requires
            old(self).inv(),
            old(self).current_screen is CreateDeck,
        ensures
            final(self).inv(),
            step_create_deck(*old(self), key, *final(self), cmd),
    {
        if self.create_deck.is_none() {
            return None;
        }
        match &self.mode {
            Mode::NORMAL => match key {
                KeyCode::Enter => {
                    let name: String = match &self.create_deck {
                        Some(cd) => cd.name.clone(),
                        None => String::new(),
                    };
                    Some(GatewayCall::SaveDeck(name))
                },
                KeyCode::Char(c) => if c == 'i' {
                    self.mode = Mode::INSERT;
                    None
                } else if c == 'q' {
                    self.should_quit = true;
                    None
                } else {
                    None
                },
                KeyCode::Esc => {
                    self.create_deck = None;
                    self.current_screen = CurrentScreen::DECKS;
                    self.resync();
                    None
                },
                _ => None,
            },
            Mode::INSERT => match key {
                KeyCode::Backspace => {
                    match &mut self.create_deck {
                        Some(cd) => {
                            cd.pop_char();
                        },
                        None => {},
                    }
                    None
                },
                KeyCode::Char(c) => {
                    match &mut self.create_deck {
                        Some(cd) => {
                            cd.push_char(c);
                        },
                        None => {},
                    }
                    None
                },
                KeyCode::Esc => {
                    self.mode = Mode::NORMAL;
                    None
                },
                _ => None,
            },
            Mode::SEARCH(_) => None,
        }
    }

    fn on_create_card(&mut self, key: KeyCode) -> (cmd: Option<GatewayCall>)
        requires
            old(self).inv(),
            old(self).current_screen is CreateCard,
        ensures
            final(self).inv(),
            step_create_card(*old(self), key, *final(self), cmd),
    {
        if self.create_screen.is_none() {
            return None;
        }
        match &self.mode {
            Mode::NORMAL => match key {
                KeyCode::Char(c) => if c == 'q' {
                    self.should_quit = true;
                    None
                } else if c == 'i' {
                    self.mode = Mode::INSERT;
                    None
                } else {
                    None
                },
                KeyCode::Tab => {
                    match &mut self.create_screen {
                        Some(cc) => {
                            cc.toggle_field();
                        },
                        None => {},
                    }
                    None
                },
                KeyCode::Enter => {
                    if self.deck.is_some() {
                        let card: Option<Card> = match &self.create_screen {
                            Some(cc) => Some(cc.assemble_card()),
                            None => None,
                        };
                        match card {
                            Some(c) => Some(GatewayCall::SaveCard(c)),
                            None => None,
                        }
                    } else {
                        None
                    }
                },
                KeyCode::Esc => {
                    self.create_screen = None;
                    self.current_screen = CurrentScreen::CARDS;
                    self.resync();
                    None
                },
                _ => None,
            },
            Mode::INSERT => {
                let editing = match &self.create_screen {
                    Some(cc) => !matches!(cc.state, crate::create_card::CurrentlyEditing::Saving),
                    None => false,
                };
                if editing {
                    match key {
                        KeyCode::Esc => {
                            self.mode = Mode::NORMAL;
                            None
                        },
                        KeyCode::Backspace => {
                            match &mut self.create_screen {
                                Some(cc) => {
                                    cc.pop_char();
                                },
                                None => {},
                            }
                            None
                        },
                        KeyCode::Enter => {
                            match &mut self.create_screen {
                                Some(cc) => {
                                    cc.push_char('\n');
                                },
                                None => {},
                            }
                            None
                        },
                        KeyCode::Char(c) => {
                            match &mut self.create_screen {
                                Some(cc) => {
                                    cc.push_char(c);
                                },
                                None => {},
                            }
                            None
                        },
                        _ => None,
                    }
                } else {
                    None
                }
            },
            Mode::SEARCH(_) => None,
        }
    }

    fn on_confirm(&mut self, key: KeyCode) -> (cmd: Option<GatewayCall>)
        requires
            old(self).inv(),
            old(self).current_screen is CONFIRM,
        ensures
            final(self).inv(),
            step_confirm(*old(self), key, *final(self), cmd),
    {
        let action: ConfirmAction = match &self.current_screen {
            CurrentScreen::CONFIRM(p) => p.action,
            _ => ConfirmAction::DeleteDeck(0),
        };
        match key {
            KeyCode::Char(c) => if c == 'y' {
                Some(match action {
                    ConfirmAction::DeleteCard(id) => GatewayCall::DeleteCard(id),
                    ConfirmAction::DeleteDeck(id) => GatewayCall::DeleteDeckCascade(id),
                })
            } else if c == 'n' {
                self.dismiss_confirm(action);
                None
            } else {
                None
            },
            KeyCode::Esc => {
                self.dismiss_confirm(action);
                None
            },
            _ => None,
        }
    }

    fn dismiss_confirm(&mut self, action: ConfirmAction)
        requires
            old(self).inv(),
            old(self).current_screen is CONFIRM,
            action is DeleteCard ==> old(self).deck is Some,
        ensures
            final(self).inv(),
            confirm_dismissed(*old(self), action, *final(self), None::<GatewayCall>),
    {
        self.current_screen = match action {
            ConfirmAction::DeleteCard(_) => CurrentScreen::CARDS,
            ConfirmAction::DeleteDeck(_) => CurrentScreen::DECKS,
        };
        self.resync();
    }
}

} // verus!
