//! The application core: the screen and mode state, the selection pointer
//! bound to the displayed list, and the caches of decks and cards.  Input
//! handling lives in `update`, gateway outcomes in `outcome`, and frame
//! production in `render`.

use vstd::prelude::*;

use crate::alert::{AlertPopup, AlertPriority, ALERT_TTL_MS};
use crate::confirm::{ConfirmAction, ConfirmPopup};
use crate::create_card::CreateCard;
use crate::create_deck::CreateDeck;
use crate::domain::{Card, Deck, DeckSet};
use crate::search::{filter_matching, string_views, Searcher};
use crate::statusbar::StatusBar;

verus! {

/// The active top-level view.
#[derive(Debug)]
pub enum CurrentScreen {
    DECKS,
    CARDS,
    CreateCard,
    CreateDeck,
    CONFIRM(ConfirmPopup),
    REVIEW,
    WELCOME,
}

/// The cross-cutting input discipline: navigation, text entry, or live
/// filtering.
#[derive(Debug, Clone)]
pub enum Mode {
    NORMAL,
    INSERT,
    SEARCH(Searcher),
}

impl Mode {
    /// The mode's display name.
    pub fn name(&self) -> (s: String)
        ensures
            match self {
                Mode::NORMAL => s@ == "NORMAL"@,
                Mode::INSERT => s@ == "INSERT"@,
                Mode::SEARCH(_) => s@ == "SEARCH"@,
            },
    {
        match self {
            Mode::NORMAL => String::from_str("NORMAL"),
            Mode::INSERT => String::from_str("INSERT"),
            Mode::SEARCH(_) => String::from_str("SEARCH"),
        }
    }
}

/// The names of the cached decks, in order; empty when nothing has been
/// loaded.
pub open spec fn deck_names(ds: Option<DeckSet>) -> Seq<Seq<char>> {
    match ds {
        Some(d) => d.decks@.map_values(|x: Deck| x.name@),
        None => Seq::<Seq<char>>::empty(),
    }
}

/// The front text a card is listed under; a card without text is listed as
/// an empty line.
pub open spec fn front_of(c: Card) -> Seq<char> {
    match c.front_text {
        Some(s) => s@,
        None => Seq::<char>::empty(),
    }
}

/// The front texts of the current deck's cards, in order; empty when no
/// deck or no cards are loaded.
pub open spec fn card_fronts(d: Option<Deck>) -> Seq<Seq<char>> {
    match d {
        Some(dd) => match dd.cards {
            Some(cs) => cs@.map_values(|c: Card| front_of(c)),
            None => Seq::<Seq<char>>::empty(),
        },
        None => Seq::<Seq<char>>::empty(),
    }
}

/// The pointer after the displayed list changed length: cleared on an empty
/// list, clamped to the end, and placed on the first row where there was no
/// selection before.
pub open spec fn sync_ptr(ptr: Option<usize>, len: int) -> Option<usize> {
    if len == 0 {
        None
    } else {
        match ptr {
            Some(i) => if (i as int) < len {
                Some(i)
            } else {
                Some((len - 1) as usize)
            },
            None => Some(0usize),
        }
    }
}

/// The pointer after a move-down: clamped at the end, no-op on an empty
/// list, first row where nothing was selected.
pub open spec fn step_down(ptr: Option<usize>, len: int) -> Option<usize> {
    if len == 0 {
        ptr
    } else {
        match ptr {
            Some(v) => if (v as int) < len - 1 {
                Some((v + 1) as usize)
            } else {
                Some(v)
            },
            None => Some(0usize),
        }
    }
}

/// The pointer after a move-up: clamped at the first row, no-op where
/// nothing is selected.
pub open spec fn step_up(ptr: Option<usize>) -> Option<usize> {
    match ptr {
        Some(v) => if v > 0 {
            Some((v - 1) as usize)
        } else {
            Some(0usize)
        },
        None => None,
    }
}

/// The alert slot holds a banner with this text, priority, and creation
/// time, and the standard time to live.
pub open spec fn alert_is(
    a: Option<AlertPopup>,
    text: Seq<char>,
    pr: AlertPriority,
    now: u64,
) -> bool {
    &&& a matches Some(x)
    &&& a->0.text@ == text
    &&& a->0.priority == pr
    &&& a->0.start_ms == now
    &&& a->0.duration_ms == ALERT_TTL_MS
}

/// The whole application state, owned by the run loop and mutated only
/// inside one update or outcome step at a time.
#[derive(Debug)]
pub struct App {
    pub current_screen: CurrentScreen,
    pub create_screen: Option<CreateCard>,
    pub create_deck: Option<CreateDeck>,
    pub statusbar: Option<StatusBar>,
    pub alert: Option<AlertPopup>,
    pub mode: Mode,
    pub should_quit: bool,
    pub deck: Option<Deck>,
    pub deckset: Option<DeckSet>,
    pub pointer: Option<usize>,
    pub n_items: usize,
}

impl App {
    /// The list the active screen displays: deck names (filtered while
    /// searching), card fronts, or nothing.
    pub open spec fn displayed(self) -> Seq<Seq<char>> {
        match self.current_screen {
            CurrentScreen::DECKS => match self.mode {
                Mode::SEARCH(sr) => filter_matching(sr.pattern(), sr.candidates()),
                _ => deck_names(self.deckset),
            },
            CurrentScreen::CARDS => card_fronts(self.deck),
            _ => Seq::<Seq<char>>::empty(),
        }
    }

    /// The search engine, if the mode holds one, is internally consistent.
    pub open spec fn mode_ok(self) -> bool {
        match self.mode {
            Mode::SEARCH(sr) => sr.wf(),
            _ => true,
        }
    }

    /// The core's invariant: search mode only on the deck list with a
    /// consistent engine; the pointer empty exactly on an empty displayed
    /// list and in bounds otherwise; and each screen's working data present.
    pub open spec fn inv(self) -> bool {
        &&& self.mode_ok()
        &&& (self.mode is SEARCH ==> self.current_screen is DECKS)
        &&& (self.displayed().len() == 0 ==> self.pointer is None)
        &&& (self.displayed().len() > 0 ==> (self.pointer matches Some(i) && (i as int)
            < self.displayed().len()))
        &&& self.n_items as int == self.displayed().len()
        &&& (self.current_screen is CreateDeck ==> self.create_deck is Some)
        &&& (self.current_screen is CreateCard ==> self.create_screen is Some
            && self.deck is Some)
        &&& (self.current_screen is CARDS ==> self.deck is Some)
        &&& (match self.current_screen {
            CurrentScreen::CONFIRM(p) => p.action is DeleteCard ==> self.deck is Some,
            _ => true,
        })
    }

    /// The initial state: the splash screen, normal mode, nothing loaded.
    pub fn new() -> (a: App)
        ensures
            a.current_screen is WELCOME,
            a.create_screen is None,
            a.create_deck is None,
            a.statusbar is None,
            a.alert is None,
            a.mode is NORMAL,
            !a.should_quit,
            a.deck is None,
            a.deckset is None,
            a.pointer is None,
            a.n_items == 0,
            a.inv(),
    {
        App {
            current_screen: CurrentScreen::WELCOME,
            create_screen: None,
            create_deck: None,
            statusbar: None,
            alert: None,
            mode: Mode::NORMAL,
            should_quit: false,
            deck: None,
            deckset: None,
            pointer: None,
            n_items: 0,
        }
    }

    /// The displayed list, as owned strings.
    pub fn displayed_names(&self) -> (r: Vec<String>)
        requires
            self.mode_ok(),
        ensures
            string_views(r@) == self.displayed(),
    {
        let r = match &self.current_screen {
            CurrentScreen::DECKS => match &self.mode {
                Mode::SEARCH(sr) => sr.get_text(),
                _ => match &self.deckset {
                    Some(ds) => {
                        let mut names: Vec<String> = Vec::new();
                        let mut i: usize = 0;
                        while i < ds.decks.len()
                            invariant
                                i <= ds.decks@.len(),
                                names@.len() == i,
                                forall|j: int| 0 <= j < i ==> #[trigger] names@[j]@
                                    == ds.decks@[j].name@,
                            decreases ds.decks@.len() - i,
                        {
                            names.push(ds.decks[i].name.clone());
                            i = i + 1;
                        }
                        proof {
                            assert(string_views(names@) =~= deck_names(self.deckset));
                        }
                        names
                    },
                    None => Vec::new(),
                },
            },
            CurrentScreen::CARDS => match &self.deck {
                Some(d) => match &d.cards {
                    Some(cs) => {
                        let mut fronts: Vec<String> = Vec::new();
                        let mut i: usize = 0;
                        while i < cs.len()
                            invariant
                                i <= cs@.len(),
                                fronts@.len() == i,
                                forall|j: int| 0 <= j < i ==> #[trigger] fronts@[j]@
                                    == front_of(cs@[j]),
                            decreases cs@.len() - i,
                        {
                            let front = match &cs[i].front_text {
                                Some(s) => s.clone(),
                                None => String::new(),
                            };
                            fronts.push(front);
                            i = i + 1;
                        }
                        proof {
                            assert(string_views(fronts@) =~= card_fronts(self.deck));
                        }
                        fronts
                    },
                    None => Vec::new(),
                },
                None => Vec::new(),
            },
            _ => Vec::new(),
        };
        proof {
            assert(string_views(Seq::<String>::empty()) =~= Seq::<Seq<char>>::empty());
        }
        r
    }

    /// Re-binds the pointer and item count to the displayed list after it
    /// changed.
    pub(crate) fn resync(&mut self)
        requires
            old(self).mode_ok(),
        ensures
            *final(self) == (App {
                pointer: final(self).pointer,
                n_items: final(self).n_items,
                ..*old(self)
            }),
            final(self).pointer == sync_ptr(old(self).pointer, old(self).displayed().len() as int),
            final(self).n_items as int == old(self).displayed().len(),
            final(self).displayed() == old(self).displayed(),
            final(self).displayed().len() == 0 ==> final(self).pointer is None,
            final(self).displayed().len() > 0 ==> (final(self).pointer matches Some(i) && (
            i as int) < final(self).displayed().len()),
    {
        let names = self.displayed_names();
        let n = names.len();
        self.n_items = n;
        if n == 0 {
            self.pointer = None;
        } else {
            match self.pointer {
                Some(i) => if i >= n {
                    self.pointer = Some(n - 1);
                },
                None => {
                    self.pointer = Some(0);
                },
            }
        }
    }

    /// Replaces the visible alert with a fresh banner.
    pub(crate) fn set_alert(&mut self, text: &str, priority: AlertPriority, now_ms: u64)
        ensures
            *final(self) == (App { alert: final(self).alert, ..*old(self) }),
            alert_is(final(self).alert, text@, priority, now_ms),
    {
        self.alert = Some(AlertPopup::new(ALERT_TTL_MS, text.to_owned(), priority, now_ms));
    }

    /// Moves the selection one row down, clamped at the last row.
    pub(crate) fn move_down(&mut self)
        ensures
            *final(self) == (App { pointer: final(self).pointer, ..*old(self) }),
            final(self).pointer == step_down(old(self).pointer, old(self).n_items as int),
    {
        if self.n_items != 0 {
            let selected: usize = match self.pointer {
                Some(v) => if v < self.n_items - 1 {
                    v + 1
                } else {
                    v
                },
                None => 0,
            };
            self.pointer = Some(selected);
        }
    }

    /// Moves the selection one row up, clamped at the first row.
    pub(crate) fn move_up(&mut self)
        ensures
            *final(self) == (App { pointer: final(self).pointer, ..*old(self) }),
            final(self).pointer == step_up(old(self).pointer),
    {
        match self.pointer {
            Some(v) => {
                self.pointer = Some(if v > 0 {
                    v - 1
                } else {
                    0
                });
            },
            None => {},
        }
    }
}

} // verus!
