//! The frame interface: once per loop iteration the core produces one
//! immutable snapshot for the render surface.  Producing it is the one
//! point where an expired alert is observed and cleared, and where an empty
//! list raises its warning banner.

use vstd::prelude::*;
use vstd::string::StrSliceExecFns;

use crate::alert::{AlertPriority, ALERT_TTL_MS};
use crate::app::{App, CurrentScreen, Mode};
use crate::create_card::CurrentlyEditing;
use crate::search::string_views;
use crate::text::{add_nums_to_text, numbered_line};

verus! {

/// What the render surface draws from: the numbered displayed list, the
/// selection, the visible alert, the live query, the mode's name, and a
/// caret hint for the active text field.
pub struct Snapshot {
    pub list: Vec<String>,
    pub selection: Option<usize>,
    pub alert_text: Option<String>,
    pub alert_priority: Option<AlertPriority>,
    pub search_text: Option<String>,
    pub mode_name: String,
    pub edit_cursor: Option<(usize, usize)>,
}

/// The displayed list with each line numbered.
pub open spec fn numbered_list(names: Seq<Seq<char>>) -> Seq<Seq<char>> {
    Seq::new(names.len(), |i: int| numbered_line(i + 1, names[i]))
}

/// The text the raised banner carries, where one is raised.
pub open spec fn raised_text(pre: App) -> Seq<char> {
    if pre.current_screen is CARDS && pre.displayed().len() == 0 {
        "Warn: No cards in deck."@
    } else if pre.current_screen is DECKS && !(pre.mode is SEARCH) && pre.deckset is None {
        "No decks found"@
    } else {
        Seq::<char>::empty()
    }
}

/// Whether producing a frame raises a warning banner of its own.
pub open spec fn raises_warning(pre: App) -> bool {
    ||| (pre.current_screen is CARDS && pre.displayed().len() == 0)
    ||| (pre.current_screen is DECKS && !(pre.mode is SEARCH) && pre.deckset is None)
}

/// The caret hint: the active text field of the card editor and the column
/// after its last character.
pub open spec fn cursor_hint(pre: App) -> Option<(usize, usize)> {
    match pre.current_screen {
        CurrentScreen::CreateCard => match pre.create_screen {
            Some(cc) => match cc.state {
                CurrentlyEditing::FrontText => Some((0usize, cc.front_text@.len() as usize)),
                CurrentlyEditing::BackText => Some((1usize, cc.back_text@.len() as usize)),
                CurrentlyEditing::Saving => None,
            },
            None => None,
        },
        _ => None,
    }
}

/// One frame production: the state changes only in its alert slot - a
/// warning may be raised, and an alert observed past its time to live is
/// cleared - and the snapshot reflects the state afterwards.
pub open spec fn render_step(pre: App, now: u64, post: App, snap: Snapshot) -> bool {
    &&& post == (App { alert: post.alert, ..pre })
    &&& (if raises_warning(pre) {
        &&& post.alert matches Some(a)
        &&& post.alert->0.text@ == raised_text(pre)
        &&& post.alert->0.priority == AlertPriority::Yellow
        &&& post.alert->0.start_ms == now
        &&& post.alert->0.duration_ms == ALERT_TTL_MS
    } else {
        post.alert == (match pre.alert {
            Some(a) => if a.valid_at(now) {
                Some(a)
            } else {
                None
            },
            None => None,
        })
    })
    &&& string_views(snap.list@) == numbered_list(pre.displayed())
    &&& snap.selection == pre.pointer
    &&& (match post.alert {
        Some(a) => (snap.alert_text matches Some(t) && t@ == a.text@) && snap.alert_priority
            == Some(a.priority),
        None => snap.alert_text is None && snap.alert_priority is None,
    })
    &&& (match pre.mode {
        Mode::SEARCH(sr) => snap.search_text matches Some(q) && q@ == sr.pattern(),
        _ => snap.search_text is None,
    })
    &&& (match pre.mode {
        Mode::NORMAL => snap.mode_name@ == "NORMAL"@,
        Mode::INSERT => snap.mode_name@ == "INSERT"@,
        Mode::SEARCH(_) => snap.mode_name@ == "SEARCH"@,
    })
    &&& snap.edit_cursor == cursor_hint(pre)
}

impl App {
    /// Produces the frame's snapshot, raising and expiring alerts as the
    /// frame is observed.
    pub fn render(&mut self, now_ms: u64) -> (snap: Snapshot)
        requires
            old(self).inv(),
        ensures
            final(self).inv(),
            render_step(*old(self), now_ms, *final(self), snap),
    {
        let ghost pre = *self;
        let names = self.displayed_names();
        let list = add_nums_to_text(names);
        proof {
            assert(string_views(list@) =~= numbered_list(pre.displayed()));
        }
        let cursor: Option<(usize, usize)> = match &self.current_screen {
            CurrentScreen::CreateCard => match &self.create_screen {
                Some(cc) => match cc.state {
                    CurrentlyEditing::FrontText => Some((
                        0,
                        cc.front_text.as_str().unicode_len(),
                    )),
                    CurrentlyEditing::BackText => Some((1, cc.back_text.as_str().unicode_len())),
                    CurrentlyEditing::Saving => None,
                },
                None => None,
            },
            _ => None,
        };
        if matches!(self.current_screen, CurrentScreen::CARDS) && self.n_items == 0 {
            self.set_alert("Warn: No cards in deck.", AlertPriority::Yellow, now_ms);
        } else if matches!(self.current_screen, CurrentScreen::DECKS)
            && !matches!(self.mode, Mode::SEARCH(_)) && self.deckset.is_none() {
            self.set_alert("No decks found", AlertPriority::Yellow, now_ms);
        } else {
            let expired: bool = match &self.alert {
                Some(a) => if now_ms >= a.start_ms {
                    !(now_ms - a.start_ms < a.duration_ms)
                } else {
                    false
                },
                None => false,
            };
            if expired {
                self.alert = None;
            }
        }
        let snap = Snapshot {
            list,
            selection: self.pointer,
            alert_text: match &self.alert {
                Some(a) => Some(a.text.clone()),
                None => None,
            },
            alert_priority: match &self.alert {
                Some(a) => Some(a.priority),
                None => None,
            },
            search_text: match &self.mode {
                Mode::SEARCH(sr) => Some(sr.get_search_string()),
                _ => None,
            },
            mode_name: self.mode.name(),
            edit_cursor: cursor,
        };
        snap
    }
}

} // verus!
