use vstd::prelude::*;

use crate::app::{App, AppView, Connection, ConnectionView};
use crate::html::{html2text_from_read, html_to_text, layout_width, shown_text};
use crate::model::{Card, Deck};
use crate::text::{decimal, decimal_text, opt_text, pad_right, padded};

verus! {

/// The line of the deck list that shows a deck: its name in a field of 30
/// characters, then its three counts in fields of 4.
pub open spec fn deck_line_text(d: Deck) -> Seq<char> {
    pad_right(d.name@, 30) + " new:"@ + pad_right(decimal(d.new_count as nat), 4) + " learn:"@
        + pad_right(decimal(d.learn_count as nat), 4) + " review:"@ + pad_right(
        decimal(d.review_count as nat),
        4,
    )
}

/// Writes the line of the deck list that shows a deck.
pub fn deck_line(deck: &Deck) -> (s: String)
    ensures
        s@ == deck_line_text(*deck),
{
    let mut s = padded(deck.name.as_str(), 30);
    s.append(" new:");
    let n = padded(decimal_text(deck.new_count as u128).as_str(), 4);
    s.append(n.as_str());
    s.append(" learn:");
    let l = padded(decimal_text(deck.learn_count as u128).as_str(), 4);
    s.append(l.as_str());
    s.append(" review:");
    let r = padded(decimal_text(deck.review_count as u128).as_str(), 4);
    s.append(r.as_str());
    s
}

/// The footer: the status, if any, followed by the key help in brackets.
pub open spec fn footer_text(status: Option<Seq<char>>, help: Seq<char>) -> Seq<char> {
    match status {
        Some(st) => st + "   ("@ + help + ")"@,
        None => help,
    }
}

fn footer(status: &Option<String>, help: &str) -> (s: String)
    ensures
        s@ == footer_text(opt_text(*status), help@),
{
    match status {
        Some(st) => {
            let mut s = String::from_str(st.as_str());
            s.append("   (");
            s.append(help);
            s.append(")");
            s
        },
        None => String::from_str(help),
    }
}

/// The key help of the deck list.
pub open spec fn deck_list_help_text(s: AppView) -> Seq<char> {
    if s.connection is Failed {
        "r: retry  q: quit"@
    } else {
        "j/k: move  gg/G: top/bottom  enter/l: review  r: refresh  q: quit"@
    }
}

/// The key help of the review screen.
pub open spec fn review_help_text(s: AppView) -> Seq<char> {
    if s.revealed {
        "1: again  2: hard  3: good  4: easy  q: end session"@
    } else {
        "space/enter: show answer  q: end session"@
    }
}

/// Writes the footer of the deck list.
pub fn deck_list_footer(app: &App) -> (s: String)
    ensures
        s@ == footer_text(app@.status, deck_list_help_text(app@)),
{
    let help = if let Connection::Failed(_) = app.connection {
        "r: retry  q: quit"
    } else {
        "j/k: move  gg/G: top/bottom  enter/l: review  r: refresh  q: quit"
    };
    footer(&app.status, help)
}

/// Writes the footer of the review screen.
pub fn review_footer(app: &App) -> (s: String)
    ensures
        s@ == footer_text(app@.status, review_help_text(app@)),
{
    let help = if app.revealed {
        "1: again  2: hard  3: good  4: easy  q: end session"
    } else {
        "space/enter: show answer  q: end session"
    };
    footer(&app.status, help)
}

/// The title of the review screen: the deck of the card and the card's
/// place in the session.
pub open spec fn review_title_text(card: Card, reviewed: nat, total: nat) -> Seq<char> {
    card.deck_name@ + " — card "@ + decimal(reviewed + 1) + " of "@ + decimal(total)
}

/// Writes the title of the review screen for the current card, if any.
pub fn review_title(app: &App) -> (s: Option<String>)
    ensures
        opt_text(s) == match app@.current {
            Some(card) => Some(review_title_text(card, app@.reviewed_count, app@.session_total)),
            None => None,
        },
{
    match &app.current {
        Some(card) => {
            let mut s = String::from_str(card.deck_name.as_str());
            s.append(" — card ");
            let n = decimal_text(app.reviewed_count as u128 + 1);
            s.append(n.as_str());
            s.append(" of ");
            let t = decimal_text(app.session_total as u128);
            s.append(t.as_str());
            Some(s)
        },
        None => None,
    }
}

/// The body of the deck list while the link is down.
pub open spec fn link_failure_text(reason: Seq<char>) -> Seq<char> {
    "Could not reach AnkiConnect:\n"@ + reason + "\n\npress r to retry, q to quit"@
}

/// Writes the body of the deck list while the link is down.
pub fn link_failure(reason: &str) -> (s: String)
    ensures
        s@ == link_failure_text(reason@),
{
    let mut s = String::from_str("Could not reach AnkiConnect:\n");
    s.append(reason);
    s.append("\n\npress r to retry, q to quit");
    s
}

/// The title of the deck list.
pub open spec fn deck_list_title_text() -> Seq<char> {
    "AnkiTUI — decks"@
}

/// Writes the title of the deck list.
pub fn deck_list_title() -> (s: &'static str)
    ensures
        s@ == deck_list_title_text(),
{
    "AnkiTUI — decks"
}

/// What the body of the deck list shows.
#[derive(Debug, PartialEq, Eq)]
pub enum DeckListBody {
    /// A plain note.
    Note(String),
    /// The reason the link is down, shown as an error.
    Failure(String),
    /// One line per deck, the selected one highlighted.
    Decks(Vec<String>),
}

/// What the body of the deck list shows, as a mathematical value.
pub enum DeckListBodyView {
    Note(Seq<char>),
    Failure(Seq<char>),
    Decks(Seq<Seq<char>>),
}

impl View for DeckListBody {
    type V = DeckListBodyView;

    open spec fn view(&self) -> DeckListBodyView {
        match self {
            DeckListBody::Note(t) => DeckListBodyView::Note(t@),
            DeckListBody::Failure(t) => DeckListBodyView::Failure(t@),
            DeckListBody::Decks(lines) => DeckListBodyView::Decks(lines.deep_view()),
        }
    }
}

/// The body of the deck list: a note while connecting, the failure while
/// the link is down, then the decks, or a note that there are none.
pub open spec fn deck_list_body_text(s: AppView) -> DeckListBodyView {
    match s.connection {
        ConnectionView::Connecting => DeckListBodyView::Note("Connecting to AnkiConnect..."@),
        ConnectionView::Failed(reason) => DeckListBodyView::Failure(link_failure_text(reason)),
        ConnectionView::Connected => if s.decks.len() == 0 {
            DeckListBodyView::Note("No decks found."@)
        } else {
            DeckListBodyView::Decks(s.decks.map_values(|d: Deck| deck_line_text(d)))
        },
    }
}

/// Writes the body of the deck list.
pub fn deck_list_body(app: &App) -> (b: DeckListBody)
    ensures
        b@ == deck_list_body_text(app@),
{
    match &app.connection {
        Connection::Connecting => DeckListBody::Note(String::from_str("Connecting to AnkiConnect...")),
        Connection::Failed(reason) => DeckListBody::Failure(link_failure(reason.as_str())),
        Connection::Connected => {
            if app.decks.len() == 0 {
                return DeckListBody::Note(String::from_str("No decks found."));
            }
            let mut lines: Vec<String> = Vec::new();
            let mut i: usize = 0;
            while i < app.decks.len()
                invariant
                    i <= app.decks@.len(),
                    lines@.len() == i,
                    forall|j: int| 0 <= j < i ==> #[trigger] lines@[j]@ == deck_line_text(app.decks@[j]),
                decreases app.decks@.len() - i,
            {
                lines.push(deck_line(&app.decks[i]));
                i = i + 1;
            }
            proof {
                assert(lines.deep_view() =~= app.decks@.map_values(|d: Deck| deck_line_text(d)));
            }
            DeckListBody::Decks(lines)
        },
    }
}

/// The pieces of a text between its line feeds, in order; a text without
/// line feeds is one piece, and a final line feed leaves an empty last piece.
pub open spec fn newline_pieces(s: Seq<char>) -> Seq<Seq<char>>
    decreases s.len(),
{
    if s.len() == 0 {
        seq![Seq::empty()]
    } else {
        let p = newline_pieces(s.drop_last());
        if s.last() == '\n' {
            p.push(Seq::empty())
        } else {
            p.update(p.len() - 1, p.last().push(s.last()))
        }
    }
}

/// A line without the carriage return that ended it, if any.
pub open spec fn strip_cr(line: Seq<char>) -> Seq<char> {
    if line.len() > 0 && line.last() == '\r' {
        line.drop_last()
    } else {
        line
    }
}

/// The lines of a text as `str::lines` gives them: split at line feeds,
/// a carriage return before a line feed dropped, and no empty line after a
/// final line feed.
pub open spec fn text_lines(s: Seq<char>) -> Seq<Seq<char>> {
    let p = newline_pieces(s);
    let init = p.drop_last().map_values(|l: Seq<char>| strip_cr(l));
    if p.last().len() == 0 {
        init
    } else {
        init.push(p.last())
    }
}

proof fn lemma_newline_pieces_nonempty(s: Seq<char>)
    ensures
        newline_pieces(s).len() >= 1,
    decreases s.len(),
{
    if s.len() > 0 {
        lemma_newline_pieces_nonempty(s.drop_last());
    }
}

fn without_cr(line: &str) -> (out: String)
    ensures
        out@ == strip_cr(line@),
{
    let n = line.unicode_len();
    if n > 0 && line.get_char(n - 1) == '\r' {
        String::from_str(line.substring_char(0, n - 1))
    } else {
        String::from_str(line)
    }
}

/// Splits a text into its lines, as `str::lines` does.
pub fn split_lines(text: &str) -> (lines: Vec<String>)
    ensures
        lines@.len() == text_lines(text@).len(),
        forall|j: int| 0 <= j < lines@.len() ==> #[trigger] lines@[j]@ == text_lines(text@)[j],
{
    let n = text.unicode_len();
    let mut lines: Vec<String> = Vec::new();
    let ghost mut raw: Seq<Seq<char>> = Seq::empty();
    let mut start: usize = 0;
    let mut i: usize = 0;
    proof {
        assert(text@.take(0) =~= Seq::<char>::empty());
        assert(text@.subrange(0, 0) =~= Seq::<char>::empty());
        assert(newline_pieces(text@.take(0)) =~= raw + seq![text@.subrange(0, 0)]);
    }
    while i < n
        invariant
            n == text@.len(),
            start <= i <= n,
            newline_pieces(text@.take(i as int)) == raw + seq![text@.subrange(start as int, i as int)],
            lines@.len() == raw.len(),
            forall|j: int| 0 <= j < raw.len() ==> #[trigger] lines@[j]@ == strip_cr(raw[j]),
        decreases n - i,
    {
        let c = text.get_char(i);
        proof {
            assert(text@.take(i + 1).drop_last() =~= text@.take(i as int));
            assert(text@.take(i + 1).last() == c);
        }
        if c == '\n' {
            let piece = text.substring_char(start, i);
            lines.push(without_cr(piece));
            proof {
                raw = raw.push(text@.subrange(start as int, i as int));
                assert(text@.subrange((i + 1) as int, (i + 1) as int) =~= Seq::<char>::empty());
                assert(newline_pieces(text@.take(i + 1)) =~= raw + seq![
                    text@.subrange((i + 1) as int, (i + 1) as int),
                ]);
            }
            start = i + 1;
        } else {
            proof {
                assert(text@.subrange(start as int, i as int).push(c) =~= text@.subrange(
                    start as int,
                    (i + 1) as int,
                ));
                assert(newline_pieces(text@.take(i + 1)) =~= raw + seq![
                    text@.subrange(start as int, (i + 1) as int),
                ]);
            }
        }
        i = i + 1;
    }
    proof {
        assert(text@.take(n as int) =~= text@);
    }
    let ghost full = raw + seq![text@.subrange(start as int, n as int)];
    if start < n {
        lines.push(String::from_str(text.substring_char(start, n)));
    }
    proof {
        assert(full.drop_last() =~= raw);
    }
    lines
}

/// One line of the review body; headings are shown in bold.
#[derive(Debug, PartialEq, Eq)]
pub struct BodyLine {
    pub text: String,
    pub bold: bool,
}

/// Lines of the review body, as mathematical values.
pub open spec fn body_view(lines: Seq<BodyLine>) -> Seq<(Seq<char>, bool)> {
    lines.map_values(|l: BodyLine| (l.text@, l.bold))
}

/// Plain lines of text in the review body.
pub open spec fn plain_lines(lines: Seq<Seq<char>>) -> Seq<(Seq<char>, bool)> {
    lines.map_values(|l: Seq<char>| (l, false))
}

/// The lines shown for one side of a card.
pub open spec fn side_lines(html: Seq<char>, width: u16) -> Seq<(Seq<char>, bool)> {
    plain_lines(text_lines(shown_text(html2text_from_read(html, layout_width(width)), html)))
}

/// The body of the review screen: a note while no card is loaded;
/// otherwise "Q:" and the question, and once revealed an empty line, "A:"
/// and the answer.
pub open spec fn review_body_text(s: AppView, width: u16) -> Seq<(Seq<char>, bool)> {
    match s.current {
        None => seq![("Loading card..."@, false)],
        Some(card) => {
            let head = seq![("Q:"@, true)] + side_lines(card.question_html@, width);
            if s.revealed {
                head + seq![(""@, false), ("A:"@, true)] + side_lines(card.answer_html@, width)
            } else {
                head
            }
        },
    }
}

fn push_side(body: &mut Vec<BodyLine>, html: &str, width: u16)
    ensures
        body_view(final(body)@) == body_view(old(body)@) + side_lines(html@, width),
{
    let text = html_to_text(html, width);
    let lines = split_lines(text.as_str());
    let ghost start = body@;
    let ghost all = text_lines(text@);
    let mut i: usize = 0;
    while i < lines.len()
        invariant
            i <= lines@.len(),
            lines@.len() == all.len(),
            forall|j: int| 0 <= j < lines@.len() ==> #[trigger] lines@[j]@ == all[j],
            body_view(body@) == body_view(start) + plain_lines(all.take(i as int)),
        decreases lines@.len() - i,
    {
        let line = lines[i].clone();
        proof {
            assert(all.take(i + 1) =~= all.take(i as int).push(line@));
            assert(plain_lines(all.take(i + 1)) =~= plain_lines(all.take(i as int)).push(
                (line@, false),
            ));
        }
        let ghost prev = body@;
        let ghost lv = line@;
        body.push(BodyLine { text: line, bold: false });
        proof {
            assert(body@.len() == prev.len() + 1);
            assert(body@[prev.len() as int].text@ == lv);
            assert(body_view(body@) =~= body_view(prev).push((lv, false)));
            assert(body_view(body@) =~= body_view(start) + plain_lines(all.take(i + 1)));
        }
        i = i + 1;
    }
    proof {
        assert(all.take(i as int) =~= all);
    }
}

/// Writes the body of the review screen for a text area of the given width.
pub fn review_body(app: &App, width: u16) -> (body: Vec<BodyLine>)
    ensures
        body_view(body@) == review_body_text(app@, width),
{
    let mut body: Vec<BodyLine> = Vec::new();
    match &app.current {
        None => {
            body.push(BodyLine { text: String::from_str("Loading card..."), bold: false });
            proof {
                assert(body_view(body@) =~= seq![("Loading card..."@, false)]);
            }
        },
        Some(card) => {
            body.push(BodyLine { text: String::from_str("Q:"), bold: true });
            proof {
                assert(body_view(body@) =~= seq![("Q:"@, true)]);
            }
            push_side(&mut body, card.question_html.as_str(), width);
            if app.revealed {
                let ghost prev = body@;
                let ghost before = body_view(body@);
                body.push(BodyLine { text: String::new(), bold: false });
                body.push(BodyLine { text: String::from_str("A:"), bold: true });
                proof {
                    reveal_strlit("");
                    assert(body@.len() == prev.len() + 2);
                    assert(body@[prev.len() as int].text@ =~= ""@);
                    assert(body_view(body@) =~= body_view(prev).push((""@, false)).push(("A:"@, true)));
                    assert(body_view(body@) =~= before + seq![(""@, false), ("A:"@, true)]);
                }
                push_side(&mut body, card.answer_html.as_str(), width);
            }
        },
    }
    body
}

} // verus!
