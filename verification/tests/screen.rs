use anki_tui::app::{App, Reply};
use anki_tui::connect::{AnkiConnectClient, Error};
use anki_tui::model::{Card, Deck};
use anki_tui::screen::{deck_line, deck_list_footer, link_failure, review_footer, review_title};

#[test]
fn deck_line_aligns_columns() {
    let d = Deck {
        name: "Spanish".into(),
        new_count: 5,
        learn_count: 2,
        review_count: 10,
    };
    assert_eq!(
        deck_line(&d),
        format!(
            "{:<30} new:{:<4} learn:{:<4} review:{:<4}",
            d.name, d.new_count, d.learn_count, d.review_count
        )
    );
}

#[test]
fn footers_show_status_and_help() {
    let (mut app, _) = App::new(AnkiConnectClient::new("e".into()));
    assert_eq!(
        deck_list_footer(&app),
        "j/k: move  gg/G: top/bottom  enter/l: review  r: refresh  q: quit"
    );
    app.on_reply(Reply::Version(Err(Error::MissingResult)));
    assert_eq!(deck_list_footer(&app), "r: retry  q: quit");
    app.status = Some("done".into());
    assert_eq!(deck_list_footer(&app), "done   (r: retry  q: quit)");
    app.status = None;
    assert_eq!(review_footer(&app), "space/enter: show answer  q: end session");
    app.revealed = true;
    assert_eq!(
        review_footer(&app),
        "1: again  2: hard  3: good  4: easy  q: end session"
    );
}

#[test]
fn review_title_counts_from_one() {
    let (mut app, _) = App::new(AnkiConnectClient::new("e".into()));
    assert_eq!(review_title(&app), None);
    app.current = Some(Card {
        id: 1,
        deck_name: "Spanish".into(),
        question_html: String::new(),
        answer_html: String::new(),
    });
    app.reviewed_count = 2;
    app.session_total = 5;
    assert_eq!(review_title(&app), Some("Spanish — card 3 of 5".into()));
}

#[test]
fn link_failure_text() {
    assert_eq!(
        link_failure("down"),
        "Could not reach AnkiConnect:\ndown\n\npress r to retry, q to quit"
    );
}

use anki_tui::screen::{deck_list_body, deck_list_title, review_body, split_lines, BodyLine, DeckListBody};
use anki_tui::html::html_to_text;

#[test]
fn lines_split_as_str_lines_does() {
    for text in [
        "",
        "a",
        "a\n",
        "a\nb",
        "a\n\nb\n",
        "a\r\nb\r\n",
        "\r",
        "a\r",
        "\n",
        "\n\n",
        "é\nü",
    ] {
        let expected: Vec<String> = text.lines().map(|l| l.to_string()).collect();
        assert_eq!(split_lines(text), expected, "for {text:?}");
    }
}

#[test]
fn deck_list_title_text() {
    assert_eq!(deck_list_title(), "AnkiTUI — decks");
}

#[test]
fn deck_list_body_follows_the_link() {
    let (mut app, _) = App::new(AnkiConnectClient::new("e".into()));
    assert_eq!(
        deck_list_body(&app),
        DeckListBody::Note("Connecting to AnkiConnect...".into())
    );
    app.on_reply(Reply::Version(Err(Error::MissingResult)));
    assert_eq!(
        deck_list_body(&app),
        DeckListBody::Failure(link_failure(
            "AnkiConnect returned no result for a successful call"
        ))
    );
    app.refresh_decks();
    app.on_reply(Reply::Version(Ok(6)));
    app.on_reply(Reply::DeckNames(Ok(vec![])));
    app.on_reply(Reply::DeckStats(Ok(vec![])));
    assert_eq!(deck_list_body(&app), DeckListBody::Note("No decks found.".into()));
    let d = Deck {
        name: "Spanish".into(),
        new_count: 1,
        learn_count: 2,
        review_count: 3,
    };
    app.refresh_decks();
    app.on_reply(Reply::Version(Ok(6)));
    app.on_reply(Reply::DeckNames(Ok(vec!["Spanish".into()])));
    app.on_reply(Reply::DeckStats(Ok(vec![d.clone()])));
    assert_eq!(deck_list_body(&app), DeckListBody::Decks(vec![deck_line(&d)]));
}

fn plain(text: &str) -> BodyLine {
    BodyLine {
        text: text.to_string(),
        bold: false,
    }
}

fn bold(text: &str) -> BodyLine {
    BodyLine {
        text: text.to_string(),
        bold: true,
    }
}

#[test]
fn review_body_shows_question_then_answer() {
    let (mut app, _) = App::new(AnkiConnectClient::new("e".into()));
    assert_eq!(review_body(&app, 40), vec![plain("Loading card...")]);
    app.current = Some(Card {
        id: 1,
        deck_name: "D".into(),
        question_html: "<p>one</p><p>two</p>".into(),
        answer_html: "three".into(),
    });
    let question: Vec<BodyLine> = html_to_text("<p>one</p><p>two</p>", 40)
        .lines()
        .map(plain)
        .collect();
    let mut expected = vec![bold("Q:")];
    expected.extend(question);
    assert_eq!(review_body(&app, 40), expected);
    app.revealed = true;
    expected.push(plain(""));
    expected.push(bold("A:"));
    expected.extend(html_to_text("three", 40).lines().map(plain));
    assert_eq!(review_body(&app, 40), expected);
    assert!(expected.iter().any(|l| l.text.contains("three")));
}
