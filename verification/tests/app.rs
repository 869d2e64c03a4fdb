use anki_tui::app::{handle_key, App, Connection, Key, Reply, Screen, Task};
use anki_tui::connect::{AnkiConnectClient, Error, Request};
use anki_tui::model::{Card, Deck, Ease};

fn deck(name: &str, new_count: u32, learn_count: u32, review_count: u32) -> Deck {
    Deck {
        name: name.to_string(),
        new_count,
        learn_count,
        review_count,
    }
}

fn card(id: i64) -> Card {
    Card {
        id,
        deck_name: "Spanish".into(),
        question_html: format!("q{id}"),
        answer_html: format!("a{id}"),
    }
}

fn client() -> AnkiConnectClient {
    AnkiConnectClient::new("http://127.0.0.1:8765".into())
}

/// Brings a new application through the first deck load.
fn loaded(decks: Vec<Deck>) -> App {
    let (mut app, req) = App::new(client());
    assert_eq!(req, Request::Version);
    assert_eq!(app.connection, Connection::Connecting);
    let names: Vec<String> = decks.iter().map(|d| d.name.clone()).collect();
    assert_eq!(app.on_reply(Reply::Version(Ok(6))), Some(Request::DeckNames));
    assert_eq!(
        app.on_reply(Reply::DeckNames(Ok(names.clone()))),
        Some(Request::DeckStats(names))
    );
    assert_eq!(app.on_reply(Reply::DeckStats(Ok(decks))), None);
    assert_eq!(app.task, Task::Idle);
    app
}

fn reload(app: &mut App, decks: Vec<Deck>) {
    let names: Vec<String> = decks.iter().map(|d| d.name.clone()).collect();
    assert_eq!(app.on_reply(Reply::Version(Ok(6))), Some(Request::DeckNames));
    assert_eq!(
        app.on_reply(Reply::DeckNames(Ok(names.clone()))),
        Some(Request::DeckStats(names))
    );
    assert_eq!(app.on_reply(Reply::DeckStats(Ok(decks))), None);
}

#[test]
fn deck_list_is_sorted_and_connected() {
    let app = loaded(vec![deck("b", 1, 0, 0), deck("a", 2, 0, 0)]);
    assert_eq!(app.connection, Connection::Connected);
    assert_eq!(app.decks[0].name, "a");
    assert_eq!(app.decks[1].name, "b");
    assert_eq!(app.selected, 0);
    assert_eq!(app.screen, Screen::DeckList);
}

#[test]
fn failed_version_marks_the_link_down() {
    let (mut app, _) = App::new(client());
    assert_eq!(app.on_reply(Reply::Version(Err(Error::MissingResult))), None);
    assert_eq!(
        app.connection,
        Connection::Failed("AnkiConnect returned no result for a successful call".into())
    );
    // only retry and quit work now
    assert_eq!(handle_key(&mut app, Key::Char('j')), None);
    assert_eq!(handle_key(&mut app, Key::Char('r')), Some(Request::Version));
    assert_eq!(app.task, Task::CheckingVersion);
    assert_eq!(
        app.on_reply(Reply::Version(Err(Error::AnkiConnect("x".into())))),
        None
    );
    assert_eq!(handle_key(&mut app, Key::Esc), None);
    assert!(app.should_quit);
}

#[test]
fn failed_stats_marks_the_link_down() {
    let (mut app, _) = App::new(client());
    app.on_reply(Reply::Version(Ok(6)));
    app.on_reply(Reply::DeckNames(Ok(vec!["a".into()])));
    app.on_reply(Reply::DeckStats(Err(Error::AnkiConnect("bad".into()))));
    assert_eq!(
        app.connection,
        Connection::Failed("AnkiConnect reported an error: bad".into())
    );
}

#[test]
fn unexpected_reply_changes_nothing() {
    let (mut app, _) = App::new(client());
    assert_eq!(app.on_reply(Reply::Cards(Ok(vec![]))), None);
    assert_eq!(app.task, Task::CheckingVersion);
    let mut idle = loaded(vec![]);
    assert_eq!(idle.on_reply(Reply::Version(Ok(6))), None);
    assert_eq!(idle.task, Task::Idle);
}

#[test]
fn selection_moves_and_stays_in_range() {
    let mut app = loaded(vec![deck("a", 0, 0, 0), deck("b", 0, 0, 0), deck("c", 0, 0, 0)]);
    handle_key(&mut app, Key::Char('j'));
    assert_eq!(app.selected, 1);
    handle_key(&mut app, Key::Down);
    handle_key(&mut app, Key::Down);
    assert_eq!(app.selected, 2);
    handle_key(&mut app, Key::Char('k'));
    assert_eq!(app.selected, 1);
    handle_key(&mut app, Key::Up);
    handle_key(&mut app, Key::Up);
    assert_eq!(app.selected, 0);
    handle_key(&mut app, Key::Char('G'));
    assert_eq!(app.selected, 2);
    // a reload with fewer decks clamps the selection
    assert_eq!(handle_key(&mut app, Key::Char('r')), Some(Request::Version));
    reload(&mut app, vec![deck("a", 0, 0, 0)]);
    assert_eq!(app.selected, 0);
}

#[test]
fn select_on_empty_list() {
    let mut app = loaded(vec![]);
    app.select_next();
    assert_eq!(app.selected, 0);
    app.select_last();
    assert_eq!(app.selected, 0);
    app.select_prev();
    assert_eq!(app.selected, 0);
    assert_eq!(app.start_review(), None);
}

#[test]
fn gg_goes_to_the_top() {
    let mut app = loaded(vec![deck("a", 0, 0, 0), deck("b", 0, 0, 0), deck("c", 0, 0, 0)]);
    app.select_last();
    handle_key(&mut app, Key::Char('g'));
    assert!(app.pending_g);
    assert_eq!(app.selected, 2);
    handle_key(&mut app, Key::Char('g'));
    assert!(!app.pending_g);
    assert_eq!(app.selected, 0);
    // another key in between cancels the pending g
    app.select_last();
    handle_key(&mut app, Key::Char('g'));
    handle_key(&mut app, Key::Char('x'));
    assert!(!app.pending_g);
    handle_key(&mut app, Key::Char('g'));
    assert_eq!(app.selected, 2);
}

#[test]
fn q_quits_the_deck_list() {
    let mut app = loaded(vec![]);
    handle_key(&mut app, Key::Char('q'));
    assert!(app.should_quit);
}

#[test]
fn review_session_runs_through_the_queue() {
    let mut app = loaded(vec![deck("Spanish", 1, 1, 1)]);
    let req = handle_key(&mut app, Key::Enter);
    assert_eq!(
        req,
        Some(Request::FindCards("deck:\"Spanish\" is:due".into()))
    );
    // due cards: sorted, capped at learn + review = 2
    let req = app.on_reply(Reply::CardIds(Ok(vec![30, 10, 20])));
    assert_eq!(
        req,
        Some(Request::FindCards("deck:\"Spanish\" is:new".into()))
    );
    // new cards: capped at 1
    let req = app.on_reply(Reply::CardIds(Ok(vec![50, 40])));
    assert_eq!(req, Some(Request::CardsInfo(vec![10])));
    assert_eq!(app.screen, Screen::Reviewing);
    assert_eq!(app.session_total, 3);
    assert_eq!(app.reviewed_count, 0);
    assert_eq!(app.queue.iter().copied().collect::<Vec<_>>(), vec![20, 40]);

    assert_eq!(app.on_reply(Reply::Cards(Ok(vec![card(10)]))), None);
    assert_eq!(app.current, Some(card(10)));
    assert!(!app.revealed);

    // grading before the answer is shown does nothing
    assert_eq!(handle_key(&mut app, Key::Char('3')), None);
    assert_eq!(app.grade(Ease::Good), None);
    assert_eq!(handle_key(&mut app, Key::Char(' ')), None);
    assert!(app.revealed);
    assert_eq!(
        handle_key(&mut app, Key::Char('3')),
        Some(Request::AnswerCards(vec![(10, Ease::Good)]))
    );
    assert_eq!(
        app.on_reply(Reply::Answered(Ok(vec![true]))),
        Some(Request::CardsInfo(vec![20]))
    );
    assert_eq!(app.reviewed_count, 1);
    assert!(!app.revealed);

    // a card that no longer exists is skipped
    assert_eq!(
        app.on_reply(Reply::Cards(Ok(vec![]))),
        Some(Request::CardsInfo(vec![40]))
    );
    assert_eq!(app.on_reply(Reply::Cards(Ok(vec![card(40)]))), None);
    handle_key(&mut app, Key::Enter);
    assert_eq!(
        handle_key(&mut app, Key::Char('1')),
        Some(Request::AnswerCards(vec![(40, Ease::Again)]))
    );
    // the queue is empty: the session ends and the decks reload
    assert_eq!(
        app.on_reply(Reply::Answered(Ok(vec![true]))),
        Some(Request::Version)
    );
    assert_eq!(app.screen, Screen::DeckList);
    assert_eq!(app.current, None);
    assert_eq!(
        app.status,
        Some("session complete: reviewed 2 card(s)".into())
    );
}

#[test]
fn deck_without_cards_is_reported() {
    let mut app = loaded(vec![deck("Empty", 0, 0, 0)]);
    app.start_review();
    app.on_reply(Reply::CardIds(Ok(vec![1, 2])));
    assert_eq!(app.on_reply(Reply::CardIds(Ok(vec![3]))), None);
    assert_eq!(app.screen, Screen::DeckList);
    assert_eq!(app.status, Some("no due or new cards in \"Empty\"".into()));
}

#[test]
fn failures_while_starting_a_review_are_reported() {
    let mut app = loaded(vec![deck("S", 1, 0, 0)]);
    app.start_review();
    assert_eq!(
        app.on_reply(Reply::CardIds(Err(Error::MissingResult))),
        None
    );
    assert_eq!(
        app.status,
        Some("failed to load due cards: AnkiConnect returned no result for a successful call".into())
    );
    app.start_review();
    app.on_reply(Reply::CardIds(Ok(vec![])));
    app.on_reply(Reply::CardIds(Err(Error::AnkiConnect("x".into()))));
    assert_eq!(
        app.status,
        Some("failed to load new cards: AnkiConnect reported an error: x".into())
    );
    assert_eq!(app.screen, Screen::DeckList);
}

#[test]
fn failure_to_load_a_card_ends_the_session() {
    let mut app = loaded(vec![deck("S", 1, 0, 0)]);
    app.start_review();
    app.on_reply(Reply::CardIds(Ok(vec![])));
    app.on_reply(Reply::CardIds(Ok(vec![7])));
    assert_eq!(
        app.on_reply(Reply::Cards(Err(Error::AnkiConnect("gone".into())))),
        Some(Request::Version)
    );
    assert_eq!(app.screen, Screen::DeckList);
    assert_eq!(
        app.status,
        Some("failed to load card: AnkiConnect reported an error: gone".into())
    );
}

#[test]
fn failed_grade_keeps_the_card() {
    let mut app = loaded(vec![deck("S", 1, 0, 0)]);
    app.start_review();
    app.on_reply(Reply::CardIds(Ok(vec![])));
    app.on_reply(Reply::CardIds(Ok(vec![7])));
    app.on_reply(Reply::Cards(Ok(vec![card(7)])));
    app.flip();
    assert_eq!(
        app.grade(Ease::Easy),
        Some(Request::AnswerCards(vec![(7, Ease::Easy)]))
    );
    assert_eq!(
        app.on_reply(Reply::Answered(Err(Error::MissingResult))),
        None
    );
    assert_eq!(app.current, Some(card(7)));
    assert_eq!(app.reviewed_count, 0);
    assert_eq!(
        app.status,
        Some("failed to submit grade: AnkiConnect returned no result for a successful call".into())
    );
}

#[test]
fn q_ends_the_session() {
    let mut app = loaded(vec![deck("S", 2, 0, 0)]);
    app.start_review();
    app.on_reply(Reply::CardIds(Ok(vec![])));
    app.on_reply(Reply::CardIds(Ok(vec![7, 8])));
    app.on_reply(Reply::Cards(Ok(vec![card(7)])));
    assert_eq!(handle_key(&mut app, Key::Char('q')), Some(Request::Version));
    assert_eq!(app.screen, Screen::DeckList);
    assert!(app.queue.is_empty());
    assert_eq!(app.current, None);
    assert_eq!(app.status, None);
}

#[test]
fn flip_needs_a_card() {
    let mut app = loaded(vec![]);
    app.flip();
    assert!(!app.revealed);
}

fn progress_ok(app: &App) -> bool {
    let slot = if app.current.is_some() || app.task == Task::LoadingCard { 1 } else { 0 };
    app.reviewed_count + app.queue.len() + slot <= app.session_total
        && (app.task != Task::Submitting || app.current.is_some())
}

#[test]
fn session_count_stays_within_total() {
    let mut app = loaded(vec![deck("S", 3, 0, 0)]);
    assert!(progress_ok(&app));
    app.start_review();
    app.on_reply(Reply::CardIds(Ok(vec![])));
    app.on_reply(Reply::CardIds(Ok(vec![1, 2, 3])));
    assert!(progress_ok(&app));
    app.on_reply(Reply::Cards(Ok(vec![card(1)])));
    assert!(progress_ok(&app));
    for _ in 0..2 {
        app.flip();
        app.grade(Ease::Good);
        assert!(progress_ok(&app));
        app.on_reply(Reply::Answered(Ok(vec![true])));
        assert!(progress_ok(&app));
        app.on_reply(Reply::Cards(Ok(vec![card(2)])));
        assert!(progress_ok(&app));
        assert!(app.reviewed_count + 1 <= app.session_total);
    }
}

#[test]
fn missing_card_is_skipped_without_counting() {
    let mut app = loaded(vec![deck("S", 3, 0, 0)]);
    app.start_review();
    app.on_reply(Reply::CardIds(Ok(vec![])));
    assert_eq!(
        app.on_reply(Reply::CardIds(Ok(vec![1, 2, 3]))),
        Some(Request::CardsInfo(vec![1]))
    );
    assert_eq!(
        app.on_reply(Reply::Cards(Ok(vec![]))),
        Some(Request::CardsInfo(vec![2]))
    );
    assert_eq!(app.reviewed_count, 0);
    assert_eq!(app.session_total, 3);
    assert_eq!(app.queue.iter().copied().collect::<Vec<_>>(), vec![3]);
}
