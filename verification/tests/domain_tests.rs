use flashy::create_card::{CreateCard, CurrentlyEditing};
use flashy::create_deck::CreateDeck;
use flashy::domain::{Card, Deck, DeckError, DeckSet};

fn deck(id: u128, name: &str) -> Deck {
    Deck {
        id,
        name: name.to_string(),
        cards: None,
    }
}

#[test]
fn add_needs_loaded_cards() {
    let mut d = deck(1, "Spanish");
    let card = Card::new_with_deck(1);
    assert_eq!(d.add(card), Err(DeckError::CardsNotLoaded));

    d.cards = Some(Vec::new());
    let card = Card::new_with_deck(1);
    let id = card.id;
    assert_eq!(d.add(card), Ok(()));
    let cards = d.cards.as_ref().unwrap();
    assert_eq!(cards.len(), 1);
    assert_eq!(cards[0].id, id);
}

#[test]
fn new_cards_are_blank() {
    let c = Card::new();
    assert_eq!(c.front_text, None);
    assert_eq!(c.back_text, None);
    assert_eq!(c.deck_id, None);

    let c = Card::new_with_deck(42);
    assert_eq!(c.deck_id, Some(42));
}

#[test]
fn card_text_setters_fill_both_sides() {
    let mut c = Card::new();
    c.set_front_text("front".to_string());
    c.set_back_text("back".to_string());
    assert_eq!(c.front_text, Some("front".to_string()));
    assert_eq!(c.back_text, Some("back".to_string()));
}

#[test]
fn decks_are_found_by_id() {
    let set = DeckSet {
        decks: vec![deck(1, "Spanish"), deck(2, "Math")],
    };
    let found = set.get_deck_by_id(2).expect("a deck");
    assert_eq!(found.name, "Math".to_string());
    assert!(set.get_deck_by_id(3).is_none());
}

#[test]
fn deck_name_edits_push_and_pop() {
    let mut cd = CreateDeck::default();
    cd.push_char('h');
    cd.push_char('i');
    assert_eq!(cd.name, "hi".to_string());
    cd.pop_char();
    assert_eq!(cd.name, "h".to_string());
    cd.pop_char();
    cd.pop_char();
    assert_eq!(cd.name, "".to_string());
}

#[test]
fn card_editor_tracks_the_active_field() {
    let base = Card::new_with_deck(1);
    let mut cc = CreateCard::from_card(&base);
    assert!(matches!(cc.state, CurrentlyEditing::FrontText));
    assert_eq!(cc.current_text_field(), Some("".to_string()));
    cc.push_char('a');
    cc.toggle_field();
    assert!(matches!(cc.state, CurrentlyEditing::BackText));
    cc.push_char('b');
    assert_eq!(cc.current_text_field(), Some("b".to_string()));
    cc.toggle_field();
    assert_eq!(cc.current_text_field(), Some("a".to_string()));
    cc.pop_char();
    assert_eq!(cc.current_text_field(), Some("".to_string()));
}

#[test]
fn card_editor_starts_from_the_card_text() {
    let card = Card {
        id: 5,
        front_text: Some("hola".to_string()),
        back_text: None,
        deck_id: Some(1),
    };
    let cc = CreateCard::from_card(&card);
    assert_eq!(cc.front_text, "hola".to_string());
    assert_eq!(cc.back_text, "".to_string());
    assert_eq!(cc.card.id, 5);
}
