use anki_tui::model::{Deck, Ease};

#[test]
fn ease_round_trips_through_keys() {
    for n in 1u8..=4 {
        assert_eq!(Ease::from_key(n).unwrap().as_u8(), n);
    }
    assert!(Ease::from_key(0).is_none());
    assert!(Ease::from_key(5).is_none());
}

#[test]
fn deck_due_count_sums_all_queues() {
    let deck = Deck {
        name: "Spanish".into(),
        new_count: 5,
        learn_count: 2,
        review_count: 10,
    };
    assert_eq!(deck.due_count(), 17);
}

#[test]
fn ease_keys_name_the_four_grades() {
    assert_eq!(Ease::from_key(1), Some(Ease::Again));
    assert_eq!(Ease::from_key(2), Some(Ease::Hard));
    assert_eq!(Ease::from_key(3), Some(Ease::Good));
    assert_eq!(Ease::from_key(4), Some(Ease::Easy));
    assert!(Ease::from_key(255).is_none());
    for e in [Ease::Again, Ease::Hard, Ease::Good, Ease::Easy] {
        assert_eq!(Ease::from_key(e.as_u8()), Some(e));
    }
}

#[test]
fn ease_labels() {
    assert_eq!(Ease::Again.label(), "Again");
    assert_eq!(Ease::Hard.label(), "Hard");
    assert_eq!(Ease::Good.label(), "Good");
    assert_eq!(Ease::Easy.label(), "Easy");
}

#[test]
fn empty_deck_has_nothing_due() {
    let deck = Deck {
        name: String::new(),
        new_count: 0,
        learn_count: 0,
        review_count: 0,
    };
    assert_eq!(deck.due_count(), 0);
}
