use flashy::alert::{AlertPopup, AlertPriority};
use flashy::app::{App, CurrentScreen};
use flashy::confirm::ConfirmAction;
use flashy::domain::{Card, Deck};
use flashy::event::{Event, KeyCode};
use flashy::gateway::{GatewayCall, PersistenceError};

fn deck(id: u128, name: &str) -> Deck {
    Deck {
        id,
        name: name.to_string(),
        cards: None,
    }
}

fn card(id: u128, deck_id: u128, front: &str, back: &str) -> Card {
    Card {
        id,
        front_text: Some(front.to_string()),
        back_text: Some(back.to_string()),
        deck_id: Some(deck_id),
    }
}

fn key(c: char) -> Event {
    Event::Key(KeyCode::Char(c))
}

/// An app on the deck list with the given decks loaded.
fn app_with_decks(decks: Vec<Deck>) -> App {
    let mut app = App::new();
    let cmd = app.update(key('x'), 0);
    assert!(matches!(cmd, Some(GatewayCall::LoadDecks)));
    let next = app.apply_decks_loaded(Ok(decks), 0);
    assert!(next.is_none());
    app
}

#[test]
fn any_key_leaves_the_splash_screen() {
    let mut app = App::new();
    assert!(matches!(app.current_screen, CurrentScreen::WELCOME));
    let cmd = app.update(Event::Key(KeyCode::Tab), 0);
    assert!(matches!(app.current_screen, CurrentScreen::DECKS));
    assert!(matches!(cmd, Some(GatewayCall::LoadDecks)));
    assert!(app.statusbar.is_some());
}

#[test]
fn quit_flag_is_set_by_q_in_normal_mode() {
    let mut app = app_with_decks(vec![deck(1, "Spanish")]);
    assert!(!app.should_quit);
    app.update(key('q'), 0);
    assert!(app.should_quit);
}

#[test]
fn selection_moves_are_no_ops_on_an_empty_list() {
    let mut app = app_with_decks(Vec::new());
    assert_eq!(app.pointer, None);
    app.update(key('j'), 0);
    assert_eq!(app.pointer, None);
    app.update(key('k'), 0);
    assert_eq!(app.pointer, None);
}

#[test]
fn selection_clamps_at_both_ends() {
    let mut app = app_with_decks(vec![deck(1, "Spanish"), deck(2, "Math")]);
    assert_eq!(app.pointer, Some(0));
    app.update(key('k'), 0);
    assert_eq!(app.pointer, Some(0));
    app.update(key('j'), 0);
    assert_eq!(app.pointer, Some(1));
    app.update(key('j'), 0);
    assert_eq!(app.pointer, Some(1));
    app.update(key('k'), 0);
    assert_eq!(app.pointer, Some(0));
}

#[test]
fn end_to_end_search_filters_and_restores() {
    let mut app = app_with_decks(vec![deck(1, "Spanish"), deck(2, "Math")]);
    assert_eq!(
        app.displayed_names(),
        vec!["Spanish".to_string(), "Math".to_string()]
    );
    app.update(key('/'), 0);
    app.update(key('M'), 0);
    app.update(key('a'), 0);
    app.update(key('t'), 0);
    assert_eq!(app.displayed_names(), vec!["Math".to_string()]);
    app.update(Event::Key(KeyCode::Backspace), 0);
    app.update(Event::Key(KeyCode::Backspace), 0);
    app.update(Event::Key(KeyCode::Backspace), 0);
    assert_eq!(
        app.displayed_names(),
        vec!["Spanish".to_string(), "Math".to_string()]
    );
}

#[test]
fn search_narrows_the_selection_to_the_filtered_list() {
    let mut app = app_with_decks(vec![deck(1, "Spanish"), deck(2, "Math")]);
    app.update(key('j'), 0);
    assert_eq!(app.pointer, Some(1));
    app.update(key('/'), 0);
    app.update(key('S'), 0);
    assert_eq!(app.displayed_names(), vec!["Spanish".to_string()]);
    assert_eq!(app.pointer, Some(0));
    app.update(Event::Key(KeyCode::Esc), 0);
    assert_eq!(
        app.displayed_names(),
        vec!["Spanish".to_string(), "Math".to_string()]
    );
}

#[test]
fn confirm_flow_deletes_the_selected_deck() {
    let mut app = app_with_decks(vec![deck(1, "Spanish"), deck(2, "Math")]);
    let cmd = app.update(key('d'), 0);
    assert!(cmd.is_none());
    match &app.current_screen {
        CurrentScreen::CONFIRM(p) => {
            assert!(matches!(p.action, ConfirmAction::DeleteDeck(1)));
            assert!(p.text.contains("Spanish"));
        }
        _ => panic!("expected a confirmation screen"),
    }
    let cmd = app.update(key('y'), 0);
    assert!(matches!(cmd, Some(GatewayCall::DeleteDeckCascade(1))));
    let next = app.apply_deck_deleted(Ok(()), 0);
    assert!(matches!(app.current_screen, CurrentScreen::DECKS));
    assert!(matches!(next, Some(GatewayCall::LoadDecks)));
    let next = app.apply_decks_loaded(Ok(vec![deck(2, "Math")]), 0);
    assert!(next.is_none());
    assert_eq!(app.displayed_names(), vec!["Math".to_string()]);
}

#[test]
fn confirm_flow_can_be_dismissed() {
    let mut app = app_with_decks(vec![deck(1, "Spanish")]);
    app.update(key('d'), 0);
    assert!(matches!(app.current_screen, CurrentScreen::CONFIRM(_)));
    let cmd = app.update(key('n'), 0);
    assert!(cmd.is_none());
    assert!(matches!(app.current_screen, CurrentScreen::DECKS));
    assert_eq!(app.displayed_names(), vec!["Spanish".to_string()]);

    app.update(key('d'), 0);
    let cmd = app.update(Event::Key(KeyCode::Esc), 0);
    assert!(cmd.is_none());
    assert!(matches!(app.current_screen, CurrentScreen::DECKS));
}

#[test]
fn delete_with_no_selection_raises_a_warning() {
    let mut app = app_with_decks(Vec::new());
    let cmd = app.update(key('d'), 7);
    assert!(cmd.is_none());
    assert!(matches!(app.current_screen, CurrentScreen::DECKS));
    let alert = app.alert.as_ref().expect("a warning alert");
    assert_eq!(alert.text, "No deck selected".to_string());
    assert!(matches!(alert.priority, AlertPriority::Yellow));
}

#[test]
fn alert_expires_after_its_ttl() {
    let popup = AlertPopup::new(5000, "saved".to_string(), AlertPriority::Green, 1000);
    assert!(popup.is_valid(1000));
    assert!(popup.is_valid(5999));
    assert!(!popup.is_valid(6000));
    assert!(!popup.is_valid(9000));
}

#[test]
fn rendered_alert_is_cleared_once_expired_and_stays_cleared() {
    let mut app = app_with_decks(Vec::new());
    app.update(key('d'), 1000);
    let snap = app.render(1000);
    assert_eq!(snap.alert_text, Some("No deck selected".to_string()));
    let snap = app.render(5999);
    assert_eq!(snap.alert_text, Some("No deck selected".to_string()));
    let snap = app.render(6000);
    assert_eq!(snap.alert_text, None);
    assert!(app.alert.is_none());
    let snap = app.render(6001);
    assert_eq!(snap.alert_text, None);
}

#[test]
fn create_deck_flow_saves_the_entered_name() {
    let mut app = app_with_decks(Vec::new());
    app.update(key('n'), 0);
    assert!(matches!(app.current_screen, CurrentScreen::CreateDeck));
    app.update(key('i'), 0);
    app.update(key('B'), 0);
    app.update(key('i'), 0);
    app.update(key('o'), 0);
    app.update(Event::Key(KeyCode::Backspace), 0);
    app.update(key('o'), 0);
    app.update(Event::Key(KeyCode::Esc), 0);
    let cmd = app.update(Event::Key(KeyCode::Enter), 0);
    match cmd {
        Some(GatewayCall::SaveDeck(name)) => assert_eq!(name, "Bio".to_string()),
        _ => panic!("expected a save-deck call"),
    }
    let next = app.apply_deck_saved(Ok(9), 0);
    assert!(matches!(app.current_screen, CurrentScreen::DECKS));
    assert!(matches!(next, Some(GatewayCall::LoadDecks)));
}

#[test]
fn failed_deck_save_stays_on_the_editor() {
    let mut app = app_with_decks(Vec::new());
    app.update(key('n'), 0);
    let next = app.apply_deck_saved(Err(PersistenceError::Conflict), 3);
    assert!(next.is_none());
    assert!(matches!(app.current_screen, CurrentScreen::CreateDeck));
    let alert = app.alert.as_ref().expect("a failure alert");
    assert_eq!(alert.text, "Failed to save deck!".to_string());
    assert!(matches!(alert.priority, AlertPriority::Red));
}

#[test]
fn escape_discards_the_deck_editor() {
    let mut app = app_with_decks(vec![deck(1, "Spanish")]);
    app.update(key('n'), 0);
    app.update(key('i'), 0);
    app.update(key('x'), 0);
    app.update(Event::Key(KeyCode::Esc), 0);
    app.update(Event::Key(KeyCode::Esc), 0);
    assert!(matches!(app.current_screen, CurrentScreen::DECKS));
    assert!(app.create_deck.is_none());
}

#[test]
fn entering_a_deck_loads_its_cards() {
    let mut app = app_with_decks(vec![deck(1, "Spanish"), deck(2, "Math")]);
    app.update(key('j'), 0);
    let cmd = app.update(Event::Key(KeyCode::Enter), 0);
    assert!(matches!(cmd, Some(GatewayCall::LoadCards(2))));
    assert!(matches!(app.current_screen, CurrentScreen::CARDS));
    let next = app.apply_cards_loaded(
        Ok(vec![card(10, 2, "two", "dos"), card(11, 2, "three", "tres")]),
        0,
    );
    assert!(next.is_none());
    assert_eq!(
        app.displayed_names(),
        vec!["two".to_string(), "three".to_string()]
    );
    assert_eq!(app.pointer, Some(0));
}

#[test]
fn card_editor_fills_both_fields_and_saves() {
    let mut app = app_with_decks(vec![deck(1, "Spanish")]);
    app.update(Event::Key(KeyCode::Enter), 0);
    app.apply_cards_loaded(Ok(Vec::new()), 0);
    app.update(key('n'), 0);
    assert!(matches!(app.current_screen, CurrentScreen::CreateCard));
    app.update(key('i'), 0);
    app.update(key('h'), 0);
    app.update(key('i'), 0);
    app.update(Event::Key(KeyCode::Esc), 0);
    app.update(Event::Key(KeyCode::Tab), 0);
    app.update(key('i'), 0);
    app.update(key('y'), 0);
    app.update(key('o'), 0);
    app.update(Event::Key(KeyCode::Esc), 0);
    let cmd = app.update(Event::Key(KeyCode::Enter), 0);
    match cmd {
        Some(GatewayCall::SaveCard(c)) => {
            assert_eq!(c.front_text, Some("hi".to_string()));
            assert_eq!(c.back_text, Some("yo".to_string()));
            assert_eq!(c.deck_id, Some(1));
        }
        _ => panic!("expected a save-card call"),
    }
    let next = app.apply_card_saved(Ok(()), 0);
    assert!(matches!(app.current_screen, CurrentScreen::CARDS));
    assert!(matches!(next, Some(GatewayCall::LoadCards(1))));
}

#[test]
fn editing_an_existing_card_is_prepopulated() {
    let mut app = app_with_decks(vec![deck(1, "Spanish")]);
    app.update(Event::Key(KeyCode::Enter), 0);
    app.apply_cards_loaded(Ok(vec![card(10, 1, "hola", "hello")]), 0);
    app.update(Event::Key(KeyCode::Enter), 0);
    assert!(matches!(app.current_screen, CurrentScreen::CreateCard));
    let editor = app.create_screen.as_ref().expect("an editor");
    assert_eq!(editor.front_text, "hola".to_string());
    assert_eq!(editor.back_text, "hello".to_string());
    assert_eq!(editor.card.id, 10);
}

#[test]
fn deleting_a_card_goes_through_confirmation() {
    let mut app = app_with_decks(vec![deck(1, "Spanish")]);
    app.update(Event::Key(KeyCode::Enter), 0);
    app.apply_cards_loaded(Ok(vec![card(10, 1, "hola", "hello")]), 0);
    let cmd = app.update(key('d'), 0);
    assert!(cmd.is_none());
    match &app.current_screen {
        CurrentScreen::CONFIRM(p) => assert!(matches!(p.action, ConfirmAction::DeleteCard(10))),
        _ => panic!("expected a confirmation screen"),
    }
    let cmd = app.update(key('y'), 0);
    assert!(matches!(cmd, Some(GatewayCall::DeleteCard(10))));
    let next = app.apply_card_deleted(Ok(()), 0);
    assert!(matches!(app.current_screen, CurrentScreen::CARDS));
    assert!(matches!(next, Some(GatewayCall::LoadCards(1))));
}

#[test]
fn every_load_failure_becomes_an_alert() {
    for err in [
        PersistenceError::NotFound,
        PersistenceError::Conflict,
        PersistenceError::ConnectionFailure,
        PersistenceError::Other,
    ] {
        let mut app = app_with_decks(vec![deck(1, "Spanish")]);
        let next = app.apply_decks_loaded(Err(err), 2);
        assert!(next.is_none());
        let alert = app.alert.as_ref().expect("a failure alert");
        assert_eq!(alert.text, "Error: Failed to load decks.".to_string());
        assert!(matches!(alert.priority, AlertPriority::Red));
        assert_eq!(app.displayed_names(), vec!["Spanish".to_string()]);
    }
}

#[test]
fn ticks_and_input_errors_change_nothing() {
    let mut app = app_with_decks(vec![deck(1, "Spanish")]);
    let cmd = app.update(Event::Tick, 0);
    assert!(cmd.is_none());
    let cmd = app.update(Event::Error, 0);
    assert!(cmd.is_none());
    assert!(matches!(app.current_screen, CurrentScreen::DECKS));
    assert_eq!(app.displayed_names(), vec!["Spanish".to_string()]);
}

#[test]
fn snapshot_numbers_the_displayed_list() {
    let mut app = app_with_decks(vec![deck(1, "Spanish"), deck(2, "Math")]);
    let snap = app.render(0);
    assert_eq!(
        snap.list,
        vec!["1    Spanish".to_string(), "2    Math".to_string()]
    );
    assert_eq!(snap.selection, Some(0));
    assert_eq!(snap.mode_name, "NORMAL".to_string());
    assert_eq!(snap.search_text, None);
}

#[test]
fn snapshot_reports_the_live_query() {
    let mut app = app_with_decks(vec![deck(1, "Spanish")]);
    app.update(key('/'), 0);
    app.update(key('S'), 0);
    let snap = app.render(0);
    assert_eq!(snap.search_text, Some("S".to_string()));
    assert_eq!(snap.mode_name, "SEARCH".to_string());
}

#[test]
fn empty_card_list_raises_a_warning_banner() {
    let mut app = app_with_decks(vec![deck(1, "Spanish")]);
    app.update(Event::Key(KeyCode::Enter), 0);
    app.apply_cards_loaded(Ok(Vec::new()), 0);
    let snap = app.render(50);
    assert_eq!(snap.alert_text, Some("Warn: No cards in deck.".to_string()));
}
