use terminal_tarot::deck::test_utils::{return_test_card, return_test_deck};
use terminal_tarot::deck::{Card, Deck, DrawError, Meaning};

fn card_names(cards: &[Card]) -> Vec<String> {
    cards.iter().map(|c| c.name.clone()).collect()
}

fn bare_card(name: &str) -> Card {
    Card {
        rank: 9,
        suit: "empty_suit".to_string(),
        name: name.to_string(),
        meanings: Meaning { light: vec![], shadow: vec![] },
        keywords: vec![],
        fortune_telling: vec![],
    }
}

#[test]
fn mod_display_card() {
    let test_card = return_test_card();
    let target_output = r#"test_name
---------
test_fortune1
Light: light_meaning2
Shadow: shadow_meaning
"#;
    let test_output = test_card.print(1);
    assert_eq!(test_output, target_output)
}

#[test]
fn deck_display_card() {
    let test_card = return_test_card();
    let target_output = r#"test_name
---------
test_fortune1
Light: light_meaning2
Shadow: shadow_meaning
"#;
    let test_output = test_card.print(1);
    assert_eq!(test_output, target_output)
}

#[test]
fn mod_deck_draw() {
    let test_deck = return_test_deck();
    assert_eq!(test_deck.draw(1).unwrap().len(), 1);
    assert_eq!(test_deck.draw(2).unwrap().len(), 2);
}

#[test]
fn deck_deck_draw() {
    let test_deck = return_test_deck();
    assert_eq!(test_deck.draw(1).unwrap().len(), 1);
    assert_eq!(test_deck.draw(2).unwrap().len(), 2);
}

#[test]
fn mod_deck_draw_too_many() {
    let test_deck = return_test_deck();
    assert_eq!(test_deck.draw(100), Err(DrawError::NotEnoughCards));
}

#[test]
fn deck_deck_draw_too_many() {
    let test_deck = return_test_deck();
    assert_eq!(test_deck.draw(100), Err(DrawError::NotEnoughCards));
}

#[test]
fn mod_deck_repeatable_draw() {
    let mut test_deck = return_test_deck();
    let mut test_deck2 = return_test_deck();
    test_deck.shuffle_deck(1);
    test_deck2.shuffle_deck(1);
    assert_eq!(test_deck.draw(2), test_deck2.draw(2));
}

#[test]
fn deck_deck_repeatable_draw() {
    let mut test_deck = return_test_deck();
    let mut test_deck2 = return_test_deck();
    test_deck.shuffle_deck(1);
    test_deck2.shuffle_deck(1);
    assert_eq!(test_deck.draw(2), test_deck2.draw(2));
}

#[test]
fn mod_deck_shuffled_draw() {
    let mut test_deck = return_test_deck();
    test_deck.shuffle_deck(1);
    let mut test_deck2 = return_test_deck();
    test_deck2.shuffle_deck(2);
    let first_draw = test_deck.draw(3);
    let second_draw = test_deck2.draw(3);
    assert_ne!(first_draw, second_draw);
}

#[test]
fn deck_deck_shuffled_draw() {
    let mut test_deck = return_test_deck();
    test_deck.shuffle_deck(1);
    let mut test_deck2 = return_test_deck();
    test_deck2.shuffle_deck(2);
    let first_draw = test_deck.draw(3);
    let second_draw = test_deck2.draw(3);
    assert_ne!(first_draw, second_draw);
}

#[test]
fn shuffle_with_seed_one_reorders() {
    let mut deck = return_test_deck();
    deck.shuffle_deck(1);
    assert_eq!(card_names(&deck.cards), vec!["test_name1", "test_name2", "test_name"]);
    assert_eq!(deck.name, "test deck");
}

#[test]
fn shuffle_keeps_every_card() {
    for seed in 0..20u64 {
        let mut deck = return_test_deck();
        deck.shuffle_deck(seed);
        let mut names = card_names(&deck.cards);
        names.sort();
        assert_eq!(names, vec!["test_name", "test_name1", "test_name2"]);
    }
}

#[test]
fn draw_takes_cards_from_the_top() {
    let deck = return_test_deck();
    assert_eq!(card_names(deck.draw(2).unwrap()), vec!["test_name", "test_name1"]);
    assert_eq!(deck.draw(3).unwrap().len(), 3);
    assert_eq!(deck.draw(0).unwrap().len(), 0);
    assert_eq!(deck.draw(4), Err(DrawError::NotEnoughCards));
}

#[test]
fn draw_from_empty_deck() {
    let deck = Deck { cards: vec![], name: "empty".to_string() };
    assert_eq!(deck.draw(0).unwrap().len(), 0);
    assert_eq!(deck.draw(1), Err(DrawError::NotEnoughCards));
}

#[test]
fn empty_lists_print_fallback_text() {
    let card = bare_card("bare");
    let expected = "bare\n----\nNo Fortune\nLight: No Light meaning\nShadow: No Shadow meaning\n";
    for seed in 0..5u64 {
        assert_eq!(card.print(seed), expected);
    }
}

#[test]
fn print_chosen_uses_given_variants() {
    let card = bare_card("ab");
    let out = card.print_chosen(&Some("f".to_string()), &None, &Some("s".to_string()));
    assert_eq!(out, "ab\n--\nf\nLight: No Light meaning\nShadow: s\n");
}

#[test]
fn card_underline_counts_characters() {
    let card = bare_card("Tour\u{e9}");
    let out = card.print(3);
    let lines: Vec<&str> = out.lines().collect();
    assert_eq!(lines[0], "Tour\u{e9}");
    assert_eq!(lines[1], "-----");
}

#[test]
fn sample_card_fields() {
    let card = return_test_card();
    assert_eq!(card.rank, 0);
    assert_eq!(card.suit, "test_suit");
    assert_eq!(card.keywords, vec!["test_keyword", "test_keyword1"]);
    assert_eq!(card.meanings.shadow, vec!["shadow_meaning", "shadow_meaning2"]);
    let deck = return_test_deck();
    assert_eq!(deck.cards[0], return_test_card());
    assert_eq!(deck.cards[2].suit, "test_suit2");
}
