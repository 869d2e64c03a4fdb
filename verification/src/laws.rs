use vstd::prelude::*;

use crate::app::{
    advance_step, initial_view, key_digit, key_step, no_cards_text, refresh_step, reply_step, start_review_step,
    AppView, Key, Reply, Screen, TaskView,
};
use crate::connect::RequestView;
use crate::model::{ease_number, ease_of_number, Card, CardId, Ease};
use crate::sort::{ascending_ids, at_most};

verus! {

/// The selection points at a deck, or at the first place of an empty list.
pub open spec fn selection_in_range(s: AppView) -> bool {
    s.selected < s.decks.len() || (s.decks.len() == 0 && s.selected == 0)
}

/// The application starts with its selection in range.
pub proof fn lemma_selection_in_range_at_start(endpoint: Seq<char>)
    ensures
        selection_in_range(refresh_step(initial_view(endpoint)).0),
{
}

/// No key press moves the selection out of the deck list.
pub proof fn lemma_keys_keep_selection_in_range(s: AppView, k: Key)
    requires
        selection_in_range(s),
    ensures
        selection_in_range(key_step(s, k).0),
{
}

/// No reply of AnkiConnect moves the selection out of the deck list; a newly
/// loaded list always has the selection in range.
pub proof fn lemma_replies_keep_selection_in_range(s: AppView, r: Reply)
    requires
        selection_in_range(s),
    ensures
        selection_in_range(reply_step(s, r).0),
{
    crate::sort::lemma_sort_by_name_sorted_permutation(
        match r {
            Reply::DeckStats(Ok(decks)) => decks@,
            _ => Seq::empty(),
        },
    );
}

/// How much is left of the sequence of calls under way: it falls with every
/// call that a reply leads to, so that every such sequence ends.
pub open spec fn pending_work(s: AppView) -> nat {
    match s.task {
        TaskView::Idle => 0,
        TaskView::LoadingStats => 1,
        TaskView::LoadingNames => 2,
        TaskView::CheckingVersion => 3,
        TaskView::LoadingCard => 4 + s.queue.len(),
        TaskView::Submitting => 5 + s.queue.len(),
        TaskView::FindingNew { new_limit, due, .. } => 5 + due.len() + new_limit,
        TaskView::FindingDue { due_limit, new_limit, .. } => 6 + due_limit + new_limit,
    }
}

/// Every reply that leads to a further call leaves less work pending, so a
/// sequence of calls started by a key press always comes to an end.
pub proof fn lemma_replies_run_out(s: AppView, r: Reply)
    ensures
        reply_step(s, r).1 is Some ==> pending_work(reply_step(s, r).0) < pending_work(s),
{
}

/// Two presses of `g` on a working deck list select the first deck.
pub proof fn lemma_gg_selects_first(s: AppView)
    requires
        s.screen == Screen::DeckList,
        !(s.connection is Failed),
        !s.pending_g,
    ensures
        key_step(key_step(s, Key::Char('g')).0, Key::Char('g')).0 == (AppView {
            selected: 0,
            pending_g: false,
            ..s
        }),
        key_step(key_step(s, Key::Char('g')).0, Key::Char('g')).1 is None,
{
}

/// A grade is only ever submitted while reviewing, for the card on show,
/// once its answer is revealed, with the grade of the number key pressed.
pub proof fn lemma_grades_only_revealed_cards(s: AppView, k: Key)
    ensures
        key_step(s, k).1 matches Some(RequestView::AnswerCards(a)) ==> {
            &&& s.screen == Screen::Reviewing
            &&& s.revealed
            &&& s.current is Some
            &&& 1 <= key_digit(k) <= 4
            &&& a == seq![(s.current->0.id, ease_of_number(key_digit(k))->0)]
        },
{
}

/// The review queue of a deck holds its due cards first, then its new
/// cards, each in ascending order of id and each capped at the deck's own
/// counts; the session covers exactly these cards, and a deck without any
/// is reported instead.
pub proof fn lemma_review_queue_due_then_new(
    s: AppView,
    due_ids: Vec<CardId>,
    new_ids: Vec<CardId>,
)
    requires
        s.selected < s.decks.len(),
    ensures
        ({
            let deck = s.decks[s.selected as int];
            let s1 = start_review_step(s).0;
            let s2 = reply_step(s1, Reply::CardIds(Ok(due_ids))).0;
            let s3 = reply_step(s2, Reply::CardIds(Ok(new_ids)));
            let due = at_most(ascending_ids(due_ids@), (deck.learn_count + deck.review_count) as nat);
            let fresh = at_most(ascending_ids(new_ids@), deck.new_count as nat);
            let queue = due + fresh;
            &&& due.len() <= deck.learn_count + deck.review_count
            &&& fresh.len() <= deck.new_count
            &&& queue.len() > 0 ==> {
                &&& s3.0.screen == Screen::Reviewing
                &&& s3.0.session_total == queue.len()
                &&& s3.0.reviewed_count == 0
                &&& s3.1 == Some(RequestView::CardsInfo(seq![queue[0]]))
                &&& s3.0.queue == queue.drop_first()
            }
            &&& queue.len() == 0 ==> {
                &&& s3.0.status == Some(no_cards_text(deck.name@))
                &&& s3.1 is None
            }
        }),
{
}

/// The count of reviewed cards rises by one with each grade that AnkiConnect
/// accepts, starts from zero with each session, and changes at no other
/// reply; no key press changes it.
pub proof fn lemma_reviewed_count_counts_accepted_grades(s: AppView, r: Reply, k: Key)
    ensures
        key_step(s, k).0.reviewed_count == s.reviewed_count,
        (s.task is Submitting && (r matches Reply::Answered(Ok(_)))) ==> reply_step(
            s,
            r,
        ).0.reviewed_count == s.reviewed_count + 1,
        (s.task is FindingNew && (r matches Reply::CardIds(Ok(_)))) ==> (reply_step(s, r).0.reviewed_count
            == s.reviewed_count || reply_step(s, r).0.reviewed_count == 0),
        !(s.task is Submitting && (r matches Reply::Answered(Ok(_)))) && !(s.task is FindingNew && (
        r matches Reply::CardIds(Ok(_)))) ==> reply_step(s, r).0.reviewed_count == s.reviewed_count,
{
}

/// The count of cards of the session that are reviewed, waiting in the
/// queue, or on show (or being loaded to be shown) stays within the
/// session's total, and a grade is only awaited for a card on show.
pub open spec fn session_progress_ok(s: AppView) -> bool {
    &&& s.reviewed_count + s.queue.len() + (if s.current is Some || s.task is LoadingCard {
        1int
    } else {
        0int
    }) <= s.session_total
    &&& s.task is Submitting ==> s.current is Some
}

/// The application starts with its session count in order.
pub proof fn lemma_session_progress_at_start(endpoint: Seq<char>)
    ensures
        session_progress_ok(refresh_step(initial_view(endpoint)).0),
{
}

/// No key press breaks the session count.
pub proof fn lemma_keys_keep_session_progress(s: AppView, k: Key)
    requires
        session_progress_ok(s),
    ensures
        session_progress_ok(key_step(s, k).0),
{
}

/// No reply of AnkiConnect breaks the session count.
pub proof fn lemma_replies_keep_session_progress(s: AppView, r: Reply)
    requires
        session_progress_ok(s),
    ensures
        session_progress_ok(reply_step(s, r).0),
{
}

/// While the session count is in order, reviewed cards, queued cards and
/// the card on show never exceed the session's total, so the card on show
/// is at most the last of the session ("card k of N" has k <= N).
pub proof fn lemma_session_progress_bounds(s: AppView)
    requires
        session_progress_ok(s),
    ensures
        s.reviewed_count + s.queue.len() + (if s.current is Some {
            1int
        } else {
            0int
        }) <= s.session_total,
        s.current is Some ==> s.reviewed_count + 1 <= s.session_total,
{
}

/// A card that AnkiConnect no longer knows is skipped silently: loading the
/// next card and getting none back is the same as moving on from a queue
/// without that card; the counts of the session are not touched.
pub proof fn lemma_missing_card_is_skipped(s: AppView, cards: Vec<Card>)
    requires
        s.queue.len() > 0,
        cards@.len() == 0,
    ensures
        reply_step(advance_step(s).0, Reply::Cards(Ok(cards))) == advance_step(
            AppView { queue: s.queue.drop_first(), ..s },
        ),
{
}

/// Starting a review asks for the due cards of the selected deck, by its
/// name, and remembers that deck's name, its learn plus review count as the
/// cap of due cards, and its new count as the cap of new cards.
pub proof fn lemma_review_starts_with_selected_deck(s: AppView)
    requires
        s.selected < s.decks.len(),
    ensures
        ({
            let deck = s.decks[s.selected as int];
            &&& start_review_step(s).1 == Some(
                RequestView::FindCards("deck:\""@ + deck.name@ + "\" is:due"@),
            )
            &&& start_review_step(s).0.task == TaskView::FindingDue {
                name: deck.name@,
                due_limit: (deck.learn_count + deck.review_count) as nat,
                new_limit: deck.new_count as nat,
            }
        }),
{
}

/// On a working deck list, `l` and Enter both start a review of the
/// selected deck (cancelling a pending `g`); with a deck selected, the
/// first call asks for that deck's due cards.
pub proof fn lemma_l_and_enter_start_a_review(s: AppView)
    requires
        s.screen == Screen::DeckList,
        !(s.connection is Failed),
    ensures
        key_step(s, Key::Char('l')) == key_step(s, Key::Enter),
        key_step(s, Key::Enter) == start_review_step(AppView { pending_g: false, ..s }),
        s.selected < s.decks.len() ==> key_step(s, Key::Char('l')).1 == Some(
            RequestView::FindCards(
                "deck:\""@ + s.decks[s.selected as int].name@ + "\" is:due"@,
            ),
        ),
{
}

/// A number key is worth its digit: `1` to `4` give 1 to 4 (the digit's
/// code point less that of `0`), any other key gives 0.
pub proof fn lemma_key_digit_is_the_digit(k: Key)
    ensures
        (k matches Key::Char(c) && '1' <= c && c <= '4') ==> key_digit(k) as int == (
        k->Char_0 as int) - ('0' as int),
        !(k matches Key::Char(c) && '1' <= c && c <= '4') ==> key_digit(k) == 0,
{
}

/// With the answer of a card revealed, the number key `n` (1 to 4) submits
/// that card with the grade whose number on Anki's scale is `n`: 1 again,
/// 2 hard, 3 good, 4 easy.
pub proof fn lemma_number_key_grades_with_its_number(s: AppView, c: char)
    requires
        s.screen == Screen::Reviewing,
        s.revealed,
        s.current is Some,
        '1' <= c <= '4',
    ensures
        ({
            let id = s.current->0.id;
            let n = (c as int) - ('0' as int);
            &&& key_step(s, Key::Char(c)).1 matches Some(RequestView::AnswerCards(a))
            &&& a.len() == 1
            &&& a[0].0 == id
            &&& ease_number(a[0].1) as int == n
            &&& n == 1 ==> a[0].1 == Ease::Again
            &&& n == 2 ==> a[0].1 == Ease::Hard
            &&& n == 3 ==> a[0].1 == Ease::Good
            &&& n == 4 ==> a[0].1 == Ease::Easy
        }),
{
}

} // verus!
