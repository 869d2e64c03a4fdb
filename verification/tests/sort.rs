use anki_tui::connect::{cards_from_info, decks_from_stats, CardInfo, DeckStats};
use anki_tui::model::{Card, Deck};
use anki_tui::sort::{lowest_ids, sort_decks_by_name, sort_ids};

fn deck(name: &str, new_count: u32) -> Deck {
    Deck {
        name: name.to_string(),
        new_count,
        learn_count: 0,
        review_count: 0,
    }
}

#[test]
fn ids_sort_ascending() {
    assert_eq!(sort_ids(&vec![5, -1, 3, 3, 0]), vec![-1, 0, 3, 3, 5]);
    assert_eq!(sort_ids(&vec![]), Vec::<i64>::new());
}

#[test]
fn lowest_ids_take_the_smallest() {
    assert_eq!(lowest_ids(&vec![9, 2, 7, 1], 2), vec![1, 2]);
    assert_eq!(lowest_ids(&vec![9, 2], 5), vec![2, 9]);
    assert_eq!(lowest_ids(&vec![9, 2], 0), Vec::<i64>::new());
}

#[test]
fn decks_sort_by_name_and_keep_ties_in_order() {
    let decks = vec![deck("b", 1), deck("a", 2), deck("b", 3), deck("A", 4)];
    let sorted = sort_decks_by_name(decks);
    let names: Vec<(&str, u32)> = sorted.iter().map(|d| (d.name.as_str(), d.new_count)).collect();
    assert_eq!(names, vec![("A", 4), ("a", 2), ("b", 1), ("b", 3)]);
}

#[test]
fn stats_become_decks() {
    let decks = decks_from_stats(vec![DeckStats {
        name: "Spanish".into(),
        new_count: 1,
        learn_count: 2,
        review_count: 3,
    }]);
    assert_eq!(
        decks,
        vec![Deck {
            name: "Spanish".into(),
            new_count: 1,
            learn_count: 2,
            review_count: 3,
        }]
    );
}

#[test]
fn infos_become_cards() {
    let cards = cards_from_info(vec![CardInfo {
        card_id: 42,
        question: "Q".into(),
        answer: "A".into(),
        deck_name: "D".into(),
    }]);
    assert_eq!(
        cards,
        vec![Card {
            id: 42,
            deck_name: "D".into(),
            question_html: "Q".into(),
            answer_html: "A".into(),
        }]
    );
}
