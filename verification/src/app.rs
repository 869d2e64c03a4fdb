use std::collections::VecDeque;

use vstd::prelude::*;

use crate::connect::{error_text, AnkiConnectClient, Error, Request, RequestView};
use crate::model::{ease_of_number, Card, CardId, Deck, Ease};
use crate::sort::{ascending_ids, at_most, lowest_ids, sort_by_name, sort_decks_by_name};
use crate::text::{decimal, decimal_text, opt_text};

verus! {

/// The screen on show.
#[derive(Debug, Clone, Copy, PartialEq, Eq, Structural)]
pub enum Screen {
    DeckList,
    Reviewing,
}

/// The state of the link to AnkiConnect.
#[derive(Debug, PartialEq, Eq)]
pub enum Connection {
    Connecting,
    Connected,
    /// The last attempt failed, for the reason given.
    Failed(String),
}

/// The state of the link to AnkiConnect, as a mathematical value.
#[verifier::ext_equal]
pub enum ConnectionView {
    Connecting,
    Connected,
    Failed(Seq<char>),
}

impl View for Connection {
    type V = ConnectionView;

    open spec fn view(&self) -> ConnectionView {
        match self {
            Connection::Connecting => ConnectionView::Connecting,
            Connection::Connected => ConnectionView::Connected,
            Connection::Failed(reason) => ConnectionView::Failed(reason@),
        }
    }
}

/// The call to AnkiConnect whose reply the application waits for, with what
/// it has to remember until the reply comes.
#[derive(Debug, PartialEq, Eq)]
pub enum Task {
    /// Nothing is asked.
    Idle,
    /// The first step of loading the deck list: is AnkiConnect there?
    CheckingVersion,
    /// Loading the deck list: the deck names.
    LoadingNames,
    /// Loading the deck list: the counts of the decks.
    LoadingStats,
    /// Starting a review of the deck `name`: its due cards, of which at most
    /// `due_limit` are taken, and then at most `new_limit` new ones.
    FindingDue { name: String, due_limit: u64, new_limit: u64 },
    /// Starting a review of the deck `name`: its new cards, of which at most
    /// `new_limit` follow the due cards `due`.
    FindingNew { name: String, new_limit: u64, due: Vec<CardId> },
    /// Loading the next card of the session.
    LoadingCard,
    /// Submitting the grade of the current card.
    Submitting,
}

/// The awaited call, as a mathematical value.
#[verifier::ext_equal]
pub enum TaskView {
    Idle,
    CheckingVersion,
    LoadingNames,
    LoadingStats,
    FindingDue { name: Seq<char>, due_limit: nat, new_limit: nat },
    FindingNew { name: Seq<char>, new_limit: nat, due: Seq<CardId> },
    LoadingCard,
    Submitting,
}

impl View for Task {
    type V = TaskView;

    open spec fn view(&self) -> TaskView {
        match self {
            Task::Idle => TaskView::Idle,
            Task::CheckingVersion => TaskView::CheckingVersion,
            Task::LoadingNames => TaskView::LoadingNames,
            Task::LoadingStats => TaskView::LoadingStats,
            Task::FindingDue { name, due_limit, new_limit } => TaskView::FindingDue {
                name: name@,
                due_limit: *due_limit as nat,
                new_limit: *new_limit as nat,
            },
            Task::FindingNew { name, new_limit, due } => TaskView::FindingNew {
                name: name@,
                new_limit: *new_limit as nat,
                due: due@,
            },
            Task::LoadingCard => TaskView::LoadingCard,
            Task::Submitting => TaskView::Submitting,
        }
    }
}

/// The outcome of a call to AnkiConnect, by kind of call.
#[derive(Debug)]
pub enum Reply {
    /// Reply to `Request::Version`.
    Version(Result<u8, Error>),
    /// Reply to `Request::DeckNames`.
    DeckNames(Result<Vec<String>, Error>),
    /// Reply to `Request::DeckStats`, in any order.
    DeckStats(Result<Vec<Deck>, Error>),
    /// Reply to `Request::FindCards`.
    CardIds(Result<Vec<CardId>, Error>),
    /// Reply to `Request::CardsInfo`.
    Cards(Result<Vec<Card>, Error>),
    /// Reply to `Request::AnswerCards`.
    Answered(Result<Vec<bool>, Error>),
}

/// A key press, as far as the application tells keys apart.
#[derive(Debug, Clone, Copy, PartialEq, Eq, Structural)]
pub enum Key {
    Char(char),
    Enter,
    Esc,
    Up,
    Down,
    Other,
}

/// The state of the application.
pub struct App {
    pub client: AnkiConnectClient,
    pub connection: Connection,
    pub screen: Screen,
    pub decks: Vec<Deck>,
    pub selected: usize,
    /// A first `g` of the two-key `gg` has been pressed.
    pub pending_g: bool,
    /// The cards of the session still to be shown, front first.
    pub queue: VecDeque<CardId>,
    pub current: Option<Card>,
    pub revealed: bool,
    pub reviewed_count: usize,
    pub session_total: usize,
    pub status: Option<String>,
    pub should_quit: bool,
    /// The call whose reply is awaited.
    pub task: Task,
}

/// The state of the application, as a mathematical value.
#[verifier::ext_equal]
pub struct AppView {
    pub endpoint: Seq<char>,
    pub connection: ConnectionView,
    pub screen: Screen,
    pub decks: Seq<Deck>,
    pub selected: nat,
    pub pending_g: bool,
    pub queue: Seq<CardId>,
    pub current: Option<Card>,
    pub revealed: bool,
    pub reviewed_count: nat,
    pub session_total: nat,
    pub status: Option<Seq<char>>,
    pub should_quit: bool,
    pub task: TaskView,
}

impl View for App {
    type V = AppView;

    open spec fn view(&self) -> AppView {
        AppView {
            endpoint: self.client@,
            connection: self.connection@,
            screen: self.screen,
            decks: self.decks@,
            selected: self.selected as nat,
            pending_g: self.pending_g,
            queue: self.queue@,
            current: self.current,
            revealed: self.revealed,
            reviewed_count: self.reviewed_count as nat,
            session_total: self.session_total as nat,
            status: opt_text(self.status),
            should_quit: self.should_quit,
            task: self.task@,
        }
    }
}

/// A call as a mathematical value, if there is one.
pub open spec fn opt_request(r: Option<Request>) -> Option<RequestView> {
    match r {
        Some(req) => Some(req@),
        None => None,
    }
}

/// A state of the application and the call it makes next, if any.
pub type Step = (AppView, Option<RequestView>);

/// The search for the due cards of a deck.
pub open spec fn due_query(name: Seq<char>) -> Seq<char> {
    "deck:\""@ + name + "\" is:due"@
}

/// The search for the new cards of a deck.
pub open spec fn new_query(name: Seq<char>) -> Seq<char> {
    "deck:\""@ + name + "\" is:new"@
}

/// The status shown when a deck has nothing to review.
pub open spec fn no_cards_text(name: Seq<char>) -> Seq<char> {
    "no due or new cards in \""@ + name + "\""@
}

/// The status shown at the end of a session.
pub open spec fn complete_text(reviewed: nat) -> Seq<char> {
    "session complete: reviewed "@ + decimal(reviewed) + " card(s)"@
}

/// The state in which the application starts.
pub open spec fn initial_view(endpoint: Seq<char>) -> AppView {
    AppView {
        endpoint,
        connection: ConnectionView::Connecting,
        screen: Screen::DeckList,
        decks: Seq::empty(),
        selected: 0,
        pending_g: false,
        queue: Seq::empty(),
        current: None,
        revealed: false,
        reviewed_count: 0,
        session_total: 0,
        status: None,
        should_quit: false,
        task: TaskView::Idle,
    }
}

/// Reloading the deck list starts by asking for the API version.
pub open spec fn refresh_step(s: AppView) -> Step {
    (AppView { task: TaskView::CheckingVersion, ..s }, Some(RequestView::Version))
}

/// The deck list is loaded: sorted by name, the selection clamped to it,
/// the link marked as working.
pub open spec fn decks_loaded(s: AppView, decks: Seq<Deck>) -> AppView {
    let sorted = sort_by_name(decks);
    AppView {
        decks: sorted,
        selected: if sorted.len() == 0 {
            0
        } else if s.selected < sorted.len() {
            s.selected
        } else {
            (sorted.len() - 1) as nat
        },
        connection: ConnectionView::Connected,
        task: TaskView::Idle,
        ..s
    }
}

/// Loading the deck list failed.
pub open spec fn link_failed(s: AppView, e: Error) -> AppView {
    AppView { connection: ConnectionView::Failed(error_text(e)), task: TaskView::Idle, ..s }
}

/// A failure shown in the status line.
pub open spec fn status_failed(s: AppView, prefix: Seq<char>, e: Error) -> AppView {
    AppView { status: Some(prefix + error_text(e)), task: TaskView::Idle, ..s }
}

/// Ends a review session and reloads the deck list.
pub open spec fn end_session_step(s: AppView, status: Option<Seq<char>>) -> Step {
    refresh_step(
        AppView {
            queue: Seq::empty(),
            current: None,
            revealed: false,
            screen: Screen::DeckList,
            status,
            ..s
        },
    )
}

/// Moves on to the next card of the session, or ends the session when none
/// is left.
pub open spec fn advance_step(s: AppView) -> Step {
    let s1 = AppView { revealed: false, ..s };
    if s1.queue.len() == 0 {
        end_session_step(AppView { current: None, ..s1 }, Some(complete_text(s1.reviewed_count)))
    } else {
        (
            AppView { queue: s1.queue.drop_first(), task: TaskView::LoadingCard, ..s1 },
            Some(RequestView::CardsInfo(seq![s1.queue[0]])),
        )
    }
}

/// Starts a session over the given queue, or reports that the deck has
/// nothing to review.
pub open spec fn begin_session_step(s: AppView, name: Seq<char>, queue: Seq<CardId>) -> Step {
    if queue.len() == 0 {
        (AppView { status: Some(no_cards_text(name)), task: TaskView::Idle, ..s }, None)
    } else {
        advance_step(
            AppView {
                session_total: queue.len(),
                reviewed_count: 0,
                queue,
                screen: Screen::Reviewing,
                status: None,
                task: TaskView::Idle,
                ..s
            },
        )
    }
}

/// The effect of a reply on the application, given the call it answers.
/// A reply that does not answer the awaited call changes nothing.
pub open spec fn reply_step(s: AppView, r: Reply) -> Step {
    match s.task {
        TaskView::CheckingVersion => match r {
            Reply::Version(Ok(_)) => (
                AppView { task: TaskView::LoadingNames, ..s },
                Some(RequestView::DeckNames),
            ),
            Reply::Version(Err(e)) => (link_failed(s, e), None),
            _ => (s, None),
        },
        TaskView::LoadingNames => match r {
            Reply::DeckNames(Ok(names)) => (
                AppView { task: TaskView::LoadingStats, ..s },
                Some(RequestView::DeckStats(names.deep_view())),
            ),
            Reply::DeckNames(Err(e)) => (link_failed(s, e), None),
            _ => (s, None),
        },
        TaskView::LoadingStats => match r {
            Reply::DeckStats(Ok(decks)) => (decks_loaded(s, decks@), None),
            Reply::DeckStats(Err(e)) => (link_failed(s, e), None),
            _ => (s, None),
        },
        TaskView::FindingDue { name, due_limit, new_limit } => match r {
            Reply::CardIds(Ok(ids)) => (
                AppView {
                    task: TaskView::FindingNew {
                        name,
                        new_limit,
                        due: at_most(ascending_ids(ids@), due_limit),
                    },
                    ..s
                },
                Some(RequestView::FindCards(new_query(name))),
            ),
            Reply::CardIds(Err(e)) => (status_failed(s, "failed to load due cards: "@, e), None),
            _ => (s, None),
        },
        TaskView::FindingNew { name, new_limit, due } => match r {
            Reply::CardIds(Ok(ids)) => begin_session_step(
                s,
                name,
                due + at_most(ascending_ids(ids@), new_limit),
            ),
            Reply::CardIds(Err(e)) => (status_failed(s, "failed to load new cards: "@, e), None),
            _ => (s, None),
        },
        TaskView::LoadingCard => match r {
            Reply::Cards(Ok(cards)) => if cards@.len() > 0 {
                (AppView { current: Some(cards@[0]), task: TaskView::Idle, ..s }, None)
            } else {
                advance_step(AppView { task: TaskView::Idle, ..s })
            },
            Reply::Cards(Err(e)) => end_session_step(
                AppView { current: None, task: TaskView::Idle, ..s },
                Some("failed to load card: "@ + error_text(e)),
            ),
            _ => (s, None),
        },
        TaskView::Submitting => match r {
            Reply::Answered(Ok(_)) => advance_step(
                AppView { reviewed_count: s.reviewed_count + 1, task: TaskView::Idle, ..s },
            ),
            Reply::Answered(Err(e)) => (status_failed(s, "failed to submit grade: "@, e), None),
            _ => (s, None),
        },
        TaskView::Idle => (s, None),
    }
}

/// Moves the selection one deck down, staying on the last deck.
pub open spec fn select_next_view(s: AppView) -> AppView {
    if s.decks.len() > 0 {
        AppView {
            selected: if s.selected + 1 < s.decks.len() {
                s.selected + 1
            } else {
                (s.decks.len() - 1) as nat
            },
            ..s
        }
    } else {
        s
    }
}

/// Moves the selection one deck up, staying on the first deck.
pub open spec fn select_prev_view(s: AppView) -> AppView {
    AppView { selected: if s.selected > 0 { (s.selected - 1) as nat } else { 0 }, ..s }
}

/// Selects the first deck.
pub open spec fn select_first_view(s: AppView) -> AppView {
    AppView { selected: 0, ..s }
}

/// Selects the last deck.
pub open spec fn select_last_view(s: AppView) -> AppView {
    AppView {
        selected: if s.decks.len() > 0 { (s.decks.len() - 1) as nat } else { 0 },
        ..s
    }
}

/// Starts a review of the selected deck by asking for its due cards;
/// without a selected deck nothing happens.
pub open spec fn start_review_step(s: AppView) -> Step {
    if s.selected < s.decks.len() {
        let deck = s.decks[s.selected as int];
        (
            AppView {
                task: TaskView::FindingDue {
                    name: deck.name@,
                    due_limit: (deck.learn_count + deck.review_count) as nat,
                    new_limit: deck.new_count as nat,
                },
                ..s
            },
            Some(RequestView::FindCards(due_query(deck.name@))),
        )
    } else {
        (s, None)
    }
}

/// Shows the answer of the current card, if there is one.
pub open spec fn flip_view(s: AppView) -> AppView {
    if s.current is Some {
        AppView { revealed: true, ..s }
    } else {
        s
    }
}

/// Submits a grade for the current card once its answer is shown;
/// otherwise nothing happens.
pub open spec fn grade_step(s: AppView, ease: Ease) -> Step {
    match s.current {
        Some(card) => if s.revealed {
            (
                AppView { task: TaskView::Submitting, ..s },
                Some(RequestView::AnswerCards(seq![(card.id, ease)])),
            )
        } else {
            (s, None)
        },
        None => (s, None),
    }
}

impl App {
    /// A new application for the given client, and the first call it makes:
    /// the deck list is loaded at once.
    pub fn new(client: AnkiConnectClient) -> (r: (App, Request))
        ensures
            r.0@ == refresh_step(initial_view(client@)).0,
            Some(r.1@) == refresh_step(initial_view(client@)).1,
    {
        let mut app = App {
            client,
            connection: Connection::Connecting,
            screen: Screen::DeckList,
            decks: Vec::new(),
            selected: 0,
            pending_g: false,
            queue: VecDeque::new(),
            current: None,
            revealed: false,
            reviewed_count: 0,
            session_total: 0,
            status: None,
            should_quit: false,
            task: Task::Idle,
        };
        let req = app.refresh_decks();
        (app, req)
    }

    /// Checks connectivity and (re)loads the deck list with due counts: the
    /// first call of that sequence.
    pub fn refresh_decks(&mut self) -> (r: Request)
        ensures
            final(self)@ == refresh_step(old(self)@).0,
            Some(r@) == refresh_step(old(self)@).1,
    {
        self.task = Task::CheckingVersion;
        Request::Version
    }

    pub fn select_next(&mut self)
        ensures
            final(self)@ == select_next_view(old(self)@),
    {
        if self.decks.len() > 0 {
            if self.selected < self.decks.len() - 1 {
                self.selected = self.selected + 1;
            } else {
                self.selected = self.decks.len() - 1;
            }
        }
    }

    pub fn select_prev(&mut self)
        ensures
            final(self)@ == select_prev_view(old(self)@),
    {
        if self.selected > 0 {
            self.selected = self.selected - 1;
        }
    }

    pub fn select_first(&mut self)
        ensures
            final(self)@ == select_first_view(old(self)@),
    {
        self.selected = 0;
    }

    pub fn select_last(&mut self)
        ensures
            final(self)@ == select_last_view(old(self)@),
    {
        if self.decks.len() > 0 {
            self.selected = self.decks.len() - 1;
        } else {
            self.selected = 0;
        }
    }
}


fn due_query_text(name: &str) -> (s: String)
    ensures
        s@ == due_query(name@),
{
    let mut s = String::from_str("deck:\"");
    s.append(name);
    s.append("\" is:due");
    s
}

fn new_query_text(name: &str) -> (s: String)
    ensures
        s@ == new_query(name@),
{
    let mut s = String::from_str("deck:\"");
    s.append(name);
    s.append("\" is:new");
    s
}

fn no_cards_message(name: &str) -> (s: String)
    ensures
        s@ == no_cards_text(name@),
{
    let mut s = String::from_str("no due or new cards in \"");
    s.append(name);
    s.append("\"");
    s
}

fn complete_message(reviewed: usize) -> (s: String)
    ensures
        s@ == complete_text(reviewed as nat),
{
    let mut s = String::from_str("session complete: reviewed ");
    let n = decimal_text(reviewed as u128);
    s.append(n.as_str());
    s.append(" card(s)");
    s
}

fn failure_message(prefix: &str, e: &Error) -> (s: String)
    ensures
        s@ == prefix@ + error_text(*e),
{
    let mut s = String::from_str(prefix);
    let m = e.message();
    s.append(m.as_str());
    s
}

impl App {
    /// Builds a review queue for the selected deck: due cards first, then
    /// new cards, each capped at the deck's own due counts. This first step
    /// asks for the due cards; without a selected deck nothing happens.
    pub fn start_review(&mut self) -> (r: Option<Request>)
        ensures
            final(self)@ == start_review_step(old(self)@).0,
            opt_request(r) == start_review_step(old(self)@).1,
    {
        if self.selected >= self.decks.len() {
            return None;
        }
        let deck = &self.decks[self.selected];
        let name = deck.name.clone();
        let due_limit: u64 = deck.learn_count as u64 + deck.review_count as u64;
        let new_limit: u64 = deck.new_count as u64;
        let query = due_query_text(name.as_str());
        self.task = Task::FindingDue { name, due_limit, new_limit };
        Some(Request::FindCards(query))
    }

    /// Loads the next card in the queue, or ends the session if empty.
    fn advance(&mut self) -> (r: Option<Request>)
        ensures
            final(self)@ == advance_step(old(self)@).0,
            opt_request(r) == advance_step(old(self)@).1,
    {
        self.revealed = false;
        match self.queue.pop_front() {
            Some(id) => {
                self.task = Task::LoadingCard;
                let mut ids: Vec<CardId> = Vec::new();
                ids.push(id);
                proof {
                    assert(ids@ =~= seq![id]);
                }
                Some(Request::CardsInfo(ids))
            },
            None => {
                self.current = None;
                let message = complete_message(self.reviewed_count);
                Some(self.end_session(Some(message)))
            },
        }
    }

    /// Shows the answer of the current card, if there is one.
    pub fn flip(&mut self)
        ensures
            final(self)@ == flip_view(old(self)@),
    {
        if self.current.is_some() {
            self.revealed = true;
        }
    }

    /// Submits a grade for the current card once its answer is shown.
    pub fn grade(&mut self, ease: Ease) -> (r: Option<Request>)
        ensures
            final(self)@ == grade_step(old(self)@, ease).0,
            opt_request(r) == grade_step(old(self)@, ease).1,
    {
        match &self.current {
            Some(card) => {
                if self.revealed {
                    let mut answers: Vec<(CardId, Ease)> = Vec::new();
                    answers.push((card.id, ease));
                    proof {
                        assert(answers@ =~= seq![(card.id, ease)]);
                    }
                    self.task = Task::Submitting;
                    Some(Request::AnswerCards(answers))
                } else {
                    None
                }
            },
            None => None,
        }
    }

    /// Ends the review session with the given status and reloads the deck
    /// list: the first call of the reload is returned.
    pub fn end_session(&mut self, status: Option<String>) -> (r: Request)
        ensures
            final(self)@ == end_session_step(old(self)@, opt_text(status)).0,
            Some(r@) == end_session_step(old(self)@, opt_text(status)).1,
    {
        self.queue.clear();
        self.current = None;
        self.revealed = false;
        self.screen = Screen::DeckList;
        self.status = status;
        self.refresh_decks()
    }

    fn begin_session(&mut self, name: &str, due: Vec<CardId>, fresh: Vec<CardId>) -> (r: Option<
        Request,
    >)
        requires
            old(self).task is Idle,
        ensures
            final(self)@ == begin_session_step(old(self)@, name@, due@ + fresh@).0,
            opt_request(r) == begin_session_step(old(self)@, name@, due@ + fresh@).1,
    {
        let mut queue: VecDeque<CardId> = VecDeque::new();
        let mut i: usize = 0;
        while i < due.len()
            invariant
                i <= due.len(),
                queue@ == due@.take(i as int),
            decreases due.len() - i,
        {
            queue.push_back(due[i]);
            proof {
                assert(due@.take(i + 1) =~= due@.take(i as int).push(due@[i as int]));
            }
            i = i + 1;
        }
        let mut j: usize = 0;
        while j < fresh.len()
            invariant
                i == due.len(),
                j <= fresh.len(),
                queue@ == due@ + fresh@.take(j as int),
            decreases fresh.len() - j,
        {
            queue.push_back(fresh[j]);
            proof {
                assert(fresh@.take(j + 1) =~= fresh@.take(j as int).push(fresh@[j as int]));
                assert(due@ + fresh@.take(j + 1) =~= (due@ + fresh@.take(j as int)).push(
                    fresh@[j as int],
                ));
            }
            j = j + 1;
        }
        proof {
            assert(due@.take(due@.len() as int) =~= due@);
            assert(fresh@.take(fresh@.len() as int) =~= fresh@);
        }
        if queue.len() == 0 {
            self.status = Some(no_cards_message(name));
            return None;
        }
        self.session_total = queue.len();
        self.reviewed_count = 0;
        self.queue = queue;
        self.screen = Screen::Reviewing;
        self.status = None;
        self.advance()
    }
}


impl App {
    /// Takes in the reply to the awaited call and returns the next call to
    /// make, if any. A reply that does not answer the awaited call changes
    /// nothing.
    pub fn on_reply(&mut self, reply: Reply) -> (r: Option<Request>)
        requires
            (old(self).task is Submitting && (reply matches Reply::Answered(Ok(_))))
                ==> old(self).reviewed_count < usize::MAX,
        ensures
            final(self)@ == reply_step(old(self)@, reply).0,
            opt_request(r) == reply_step(old(self)@, reply).1,
    {
        let mut task = Task::Idle;
        std::mem::swap(&mut task, &mut self.task);
        match task {
            Task::CheckingVersion => match reply {
                Reply::Version(Ok(_)) => {
                    self.task = Task::LoadingNames;
                    Some(Request::DeckNames)
                },
                Reply::Version(Err(e)) => {
                    self.connection = Connection::Failed(e.message());
                    None
                },
                _ => {
                    self.task = Task::CheckingVersion;
                    None
                },
            },
            Task::LoadingNames => match reply {
                Reply::DeckNames(Ok(names)) => {
                    self.task = Task::LoadingStats;
                    Some(Request::DeckStats(names))
                },
                Reply::DeckNames(Err(e)) => {
                    self.connection = Connection::Failed(e.message());
                    None
                },
                _ => {
                    self.task = Task::LoadingNames;
                    None
                },
            },
            Task::LoadingStats => match reply {
                Reply::DeckStats(Ok(decks)) => {
                    let sorted = sort_decks_by_name(decks);
                    if sorted.len() == 0 {
                        self.selected = 0;
                    } else if self.selected >= sorted.len() {
                        self.selected = sorted.len() - 1;
                    }
                    self.decks = sorted;
                    self.connection = Connection::Connected;
                    None
                },
                Reply::DeckStats(Err(e)) => {
                    self.connection = Connection::Failed(e.message());
                    None
                },
                _ => {
                    self.task = Task::LoadingStats;
                    None
                },
            },
            Task::FindingDue { name, due_limit, new_limit } => match reply {
                Reply::CardIds(Ok(ids)) => {
                    let due = lowest_ids(&ids, due_limit);
                    let query = new_query_text(name.as_str());
                    self.task = Task::FindingNew { name, new_limit, due };
                    Some(Request::FindCards(query))
                },
                Reply::CardIds(Err(e)) => {
                    self.status = Some(failure_message("failed to load due cards: ", &e));
                    None
                },
                _ => {
                    self.task = Task::FindingDue { name, due_limit, new_limit };
                    None
                },
            },
            Task::FindingNew { name, new_limit, due } => match reply {
                Reply::CardIds(Ok(ids)) => {
                    let fresh = lowest_ids(&ids, new_limit);
                    self.begin_session(name.as_str(), due, fresh)
                },
                Reply::CardIds(Err(e)) => {
                    self.status = Some(failure_message("failed to load new cards: ", &e));
                    None
                },
                _ => {
                    self.task = Task::FindingNew { name, new_limit, due };
                    None
                },
            },
            Task::LoadingCard => match reply {
                Reply::Cards(Ok(cards)) => {
                    if cards.len() > 0 {
                        let mut cards = cards;
                        let card = cards.remove(0);
                        self.current = Some(card);
                        None
                    } else {
                        self.advance()
                    }
                },
                Reply::Cards(Err(e)) => {
                    self.current = None;
                    let message = failure_message("failed to load card: ", &e);
                    Some(self.end_session(Some(message)))
                },
                _ => {
                    self.task = Task::LoadingCard;
                    None
                },
            },
            Task::Submitting => match reply {
                Reply::Answered(Ok(_)) => {
                    self.reviewed_count = self.reviewed_count + 1;
                    self.advance()
                },
                Reply::Answered(Err(e)) => {
                    self.status = Some(failure_message("failed to submit grade: ", &e));
                    None
                },
                _ => {
                    self.task = Task::Submitting;
                    None
                },
            },
            Task::Idle => None,
        }
    }
}


/// The grade number of a key: 1 to 4 for the keys `1` to `4`, 0 otherwise.
pub open spec fn key_digit(k: Key) -> u8 {
    match k {
        Key::Char(c) => if c == '1' {
            1
        } else if c == '2' {
            2
        } else if c == '3' {
            3
        } else if c == '4' {
            4
        } else {
            0
        },
        _ => 0,
    }
}

/// A key on the deck list. While the link is down only `r` (retry) and
/// `q`/Esc (quit) do anything; otherwise `gg` selects the first deck, `G`
/// the last, `j`/Down and `k`/Up move, Enter/`l` start a review, `r`
/// reloads and `q` quits. Any key but `g` cancels a pending `g`.
pub open spec fn deck_list_key_step(s: AppView, k: Key) -> Step {
    if s.connection is Failed {
        if k == Key::Char('r') {
            refresh_step(s)
        } else if k == Key::Char('q') || k == Key::Esc {
            (AppView { should_quit: true, ..s }, None)
        } else {
            (s, None)
        }
    } else if k == Key::Char('g') {
        if s.pending_g {
            (select_first_view(AppView { pending_g: false, ..s }), None)
        } else {
            (AppView { pending_g: true, ..s }, None)
        }
    } else {
        let s1 = AppView { pending_g: false, ..s };
        if k == Key::Char('G') {
            (select_last_view(s1), None)
        } else if k == Key::Char('j') || k == Key::Down {
            (select_next_view(s1), None)
        } else if k == Key::Char('k') || k == Key::Up {
            (select_prev_view(s1), None)
        } else if k == Key::Enter || k == Key::Char('l') {
            start_review_step(s1)
        } else if k == Key::Char('r') {
            refresh_step(s1)
        } else if k == Key::Char('q') {
            (AppView { should_quit: true, ..s1 }, None)
        } else {
            (s1, None)
        }
    }
}

/// A key while reviewing: space/Enter show the answer, `1` to `4` grade
/// the card once the answer is shown, `q`/Esc end the session.
pub open spec fn review_key_step(s: AppView, k: Key) -> Step {
    if (k == Key::Char(' ') || k == Key::Enter) && !s.revealed {
        (flip_view(s), None)
    } else if key_digit(k) != 0 && s.revealed {
        grade_step(s, ease_of_number(key_digit(k))->0)
    } else if k == Key::Char('q') || k == Key::Esc {
        end_session_step(s, None)
    } else {
        (s, None)
    }
}

/// The effect of a key press on the screen on show.
pub open spec fn key_step(s: AppView, k: Key) -> Step {
    match s.screen {
        Screen::DeckList => deck_list_key_step(s, k),
        Screen::Reviewing => review_key_step(s, k),
    }
}

fn digit_of(c: char) -> (d: u8)
    ensures
        d == key_digit(Key::Char(c)),
{
    if c == '1' {
        1
    } else if c == '2' {
        2
    } else if c == '3' {
        3
    } else if c == '4' {
        4
    } else {
        0
    }
}

/// Acts on a key press and returns the call to AnkiConnect it leads to,
/// if any.
pub fn handle_key(app: &mut App, key: Key) -> (r: Option<Request>)
    ensures
        final(app)@ == key_step(old(app)@, key).0,
        opt_request(r) == key_step(old(app)@, key).1,
{
    match app.screen {
        Screen::DeckList => handle_deck_list_key(app, key),
        Screen::Reviewing => handle_review_key(app, key),
    }
}

fn handle_deck_list_key(app: &mut App, key: Key) -> (r: Option<Request>)
    ensures
        final(app)@ == deck_list_key_step(old(app)@, key).0,
        opt_request(r) == deck_list_key_step(old(app)@, key).1,
{
    if let Connection::Failed(_) = app.connection {
        match key {
            Key::Char('r') => return Some(app.refresh_decks()),
            Key::Char('q') | Key::Esc => {
                app.should_quit = true;
            },
            _ => {},
        }
        return None;
    }
    // vim-style "gg" needs to see two 'g' presses in a row.
    if let Key::Char('g') = key {
        if app.pending_g {
            app.pending_g = false;
            app.select_first();
        } else {
            app.pending_g = true;
        }
        return None;
    }
    app.pending_g = false;
    match key {
        Key::Char('G') => {
            app.select_last();
            None
        },
        Key::Char('j') | Key::Down => {
            app.select_next();
            None
        },
        Key::Char('k') | Key::Up => {
            app.select_prev();
            None
        },
        Key::Enter | Key::Char('l') => app.start_review(),
        Key::Char('r') => Some(app.refresh_decks()),
        Key::Char('q') => {
            app.should_quit = true;
            None
        },
        _ => None,
    }
}

fn handle_review_key(app: &mut App, key: Key) -> (r: Option<Request>)
    ensures
        final(app)@ == review_key_step(old(app)@, key).0,
        opt_request(r) == review_key_step(old(app)@, key).1,
{
    let flip_key = match key {
        Key::Char(' ') | Key::Enter => true,
        _ => false,
    };
    if flip_key && !app.revealed {
        app.flip();
        return None;
    }
    let digit = match key {
        Key::Char(c) => digit_of(c),
        _ => 0,
    };
    if digit != 0 && app.revealed {
        return match Ease::from_key(digit) {
            Some(ease) => app.grade(ease),
            None => None,
        };
    }
    match key {
        Key::Char('q') | Key::Esc => Some(app.end_session(None)),
        _ => None,
    }
}

} // verus!
