use vstd::prelude::*;

use crate::model::{ease_number, Card, CardId, Deck, Ease};

verus! {

/// The address at which the AnkiConnect add-on listens by default.
pub const DEFAULT_ENDPOINT: &'static str = "http://127.0.0.1:8765";

/// The version of the AnkiConnect protocol that requests are written for.
pub const API_VERSION: u8 = 6;

/// What can go wrong in a call to AnkiConnect.
#[derive(Debug, PartialEq, Eq)]
pub enum Error {
    /// The add-on could not be reached, or its answer could not be read;
    /// `detail` describes the transport failure.
    Transport { endpoint: String, detail: String },
    /// The add-on answered with an error message.
    AnkiConnect(String),
    /// The add-on reported success but sent no result.
    MissingResult,
}

/// The text by which an error is shown to the user.
pub open spec fn error_text(e: Error) -> Seq<char> {
    match e {
        Error::Transport { endpoint, detail } => "could not reach AnkiConnect at "@ + endpoint@
            + " (is Anki open with the AnkiConnect addon installed?): "@ + detail@,
        Error::AnkiConnect(message) => "AnkiConnect reported an error: "@ + message@,
        Error::MissingResult => "AnkiConnect returned no result for a successful call"@,
    }
}

impl Error {
    /// The text by which the error is shown to the user.
    pub fn message(&self) -> (s: String)
        ensures
            s@ == error_text(*self),
    {
        match self {
            Error::Transport { endpoint, detail } => {
                let mut s = String::from_str("could not reach AnkiConnect at ");
                s.append(endpoint.as_str());
                s.append(" (is Anki open with the AnkiConnect addon installed?): ");
                s.append(detail.as_str());
                s
            },
            Error::AnkiConnect(message) => {
                let mut s = String::from_str("AnkiConnect reported an error: ");
                s.append(message.as_str());
                s
            },
            Error::MissingResult => String::from_str(
                "AnkiConnect returned no result for a successful call",
            ),
        }
    }
}

/// What a call to AnkiConnect gives back, decided from the two fields of its
/// answer: a reported error wins, otherwise the result, and a success without
/// a result is an error of its own.
pub open spec fn settled<T>(result: Option<T>, error: Option<String>) -> Result<T, Error> {
    match error {
        Some(message) => Err(Error::AnkiConnect(message)),
        None => match result {
            Some(value) => Ok(value),
            None => Err(Error::MissingResult),
        },
    }
}

/// Decides the outcome of a call from the `result` and `error` fields of
/// AnkiConnect's answer.
pub fn settle<T>(result: Option<T>, error: Option<String>) -> (r: Result<T, Error>)
    ensures
        r == settled(result, error),
{
    if let Some(message) = error {
        return Err(Error::AnkiConnect(message));
    }
    match result {
        Some(value) => Ok(value),
        None => Err(Error::MissingResult),
    }
}

/// A client of the AnkiConnect add-on's local HTTP API; it knows where the
/// add-on listens.
pub struct AnkiConnectClient {
    endpoint: String,
}

impl View for AnkiConnectClient {
    type V = Seq<char>;

    /// The address of the add-on.
    closed spec fn view(&self) -> Seq<char> {
        self.endpoint@
    }
}

impl AnkiConnectClient {
    /// A client of the add-on at the given address.
    pub fn new(endpoint: String) -> (c: Self)
        ensures
            c@ == endpoint@,
    {
        AnkiConnectClient { endpoint }
    }

    /// A client of the add-on at the address given by the environment, or
    /// at the default local address where the environment gives none.
    pub fn from_env_value(value: Option<String>) -> (c: Self)
        ensures
            c@ == match value {
                Some(v) => v@,
                None => DEFAULT_ENDPOINT@,
            },
    {
        match value {
            Some(v) => Self::new(v),
            None => Self::new(String::from_str(DEFAULT_ENDPOINT)),
        }
    }

    /// The address of the add-on.
    pub fn endpoint(&self) -> (s: &str)
        ensures
            s@ == self@,
    {
        self.endpoint.as_str()
    }

    /// The error for a transport failure on the way to this client's add-on.
    pub fn transport_error(&self, detail: String) -> (e: Error)
        ensures
            e matches Error::Transport { endpoint, detail: d } && endpoint@ == self@ && d == detail,
    {
        Error::Transport { endpoint: self.endpoint.clone(), detail }
    }
}

/// A call of the AnkiConnect API.
#[derive(Debug, PartialEq, Eq)]
pub enum Request {
    /// Asks for the API version; confirms that the add-on is reachable.
    Version,
    /// Asks for the names of all decks.
    DeckNames,
    /// Asks for the new, learning and review counts of the named decks,
    /// within the daily limits configured in Anki.
    DeckStats(Vec<String>),
    /// Asks for the ids of the cards that match a search query.
    FindCards(String),
    /// Asks for the rendered question and answer of the given cards.
    CardsInfo(Vec<CardId>),
    /// Grades reviewed cards directly, whether or not Anki's window is on its
    /// review screen.
    AnswerCards(Vec<(CardId, Ease)>),
}

/// A call of the AnkiConnect API, as a mathematical value.
pub enum RequestView {
    Version,
    DeckNames,
    DeckStats(Seq<Seq<char>>),
    FindCards(Seq<char>),
    CardsInfo(Seq<CardId>),
    AnswerCards(Seq<(CardId, Ease)>),
}

impl View for Request {
    type V = RequestView;

    open spec fn view(&self) -> RequestView {
        match self {
            Request::Version => RequestView::Version,
            Request::DeckNames => RequestView::DeckNames,
            Request::DeckStats(names) => RequestView::DeckStats(names.deep_view()),
            Request::FindCards(query) => RequestView::FindCards(query@),
            Request::CardsInfo(ids) => RequestView::CardsInfo(ids@),
            Request::AnswerCards(answers) => RequestView::AnswerCards(answers@),
        }
    }
}

/// The name of the API action of a call.
pub open spec fn action_name(r: RequestView) -> Seq<char> {
    match r {
        RequestView::Version => "version"@,
        RequestView::DeckNames => "deckNames"@,
        RequestView::DeckStats(_) => "getDeckStats"@,
        RequestView::FindCards(_) => "findCards"@,
        RequestView::CardsInfo(_) => "cardsInfo"@,
        RequestView::AnswerCards(_) => "answerCards"@,
    }
}

impl Request {
    /// The name of the API action that carries this call.
    pub fn action(&self) -> (s: &'static str)
        ensures
            s@ == action_name(self@),
    {
        match self {
            Request::Version => "version",
            Request::DeckNames => "deckNames",
            Request::DeckStats(_) => "getDeckStats",
            Request::FindCards(_) => "findCards",
            Request::CardsInfo(_) => "cardsInfo",
            Request::AnswerCards(_) => "answerCards",
        }
    }
}

/// The key under which a graded card's id is sent.
pub const ANSWER_CARD_KEY: &'static str = "cardId";

/// The key under which a graded card's grade is sent.
pub const ANSWER_EASE_KEY: &'static str = "ease";

/// The value of the one parameter of a call.
#[derive(Debug, PartialEq, Eq)]
pub enum ParamValue {
    /// A list of texts.
    Texts(Vec<String>),
    /// One text.
    Text(String),
    /// A list of card ids.
    Ids(Vec<CardId>),
    /// A list of graded cards, each a card id (under `ANSWER_CARD_KEY`) and
    /// a grade number (under `ANSWER_EASE_KEY`).
    Answers(Vec<(CardId, u8)>),
}

/// The value of a call's parameter, as a mathematical value.
pub enum ParamValueView {
    Texts(Seq<Seq<char>>),
    Text(Seq<char>),
    Ids(Seq<CardId>),
    Answers(Seq<(CardId, u8)>),
}

impl View for ParamValue {
    type V = ParamValueView;

    open spec fn view(&self) -> ParamValueView {
        match self {
            ParamValue::Texts(t) => ParamValueView::Texts(t.deep_view()),
            ParamValue::Text(t) => ParamValueView::Text(t@),
            ParamValue::Ids(ids) => ParamValueView::Ids(ids@),
            ParamValue::Answers(a) => ParamValueView::Answers(a@),
        }
    }
}

/// The graded cards with each grade given by its number.
pub open spec fn numbered_answers(a: Seq<(CardId, Ease)>) -> Seq<(CardId, u8)> {
    a.map_values(|p: (CardId, Ease)| (p.0, ease_number(p.1)))
}

/// The parameters of a call: none, or one named value.
pub open spec fn params_of(r: RequestView) -> Option<(Seq<char>, ParamValueView)> {
    match r {
        RequestView::Version => None,
        RequestView::DeckNames => None,
        RequestView::DeckStats(names) => Some(("decks"@, ParamValueView::Texts(names))),
        RequestView::FindCards(query) => Some(("query"@, ParamValueView::Text(query))),
        RequestView::CardsInfo(ids) => Some(("cards"@, ParamValueView::Ids(ids))),
        RequestView::AnswerCards(a) => Some(("answers"@, ParamValueView::Answers(numbered_answers(a)))),
    }
}

/// A call's parameters as a mathematical value, if any.
pub open spec fn opt_params(p: Option<(&'static str, ParamValue)>) -> Option<(Seq<char>, ParamValueView)> {
    match p {
        Some((key, value)) => Some((key@, value@)),
        None => None,
    }
}

fn numbered(answers: Vec<(CardId, Ease)>) -> (out: Vec<(CardId, u8)>)
    ensures
        out@ == numbered_answers(answers@),
{
    let mut out: Vec<(CardId, u8)> = Vec::new();
    let mut i: usize = 0;
    while i < answers.len()
        invariant
            i <= answers.len(),
            out@ == numbered_answers(answers@.take(i as int)),
        decreases answers.len() - i,
    {
        let (id, ease) = answers[i];
        out.push((id, ease.as_u8()));
        proof {
            assert(answers@.take(i + 1) =~= answers@.take(i as int).push(answers@[i as int]));
            assert(numbered_answers(answers@.take(i + 1)) =~= numbered_answers(
                answers@.take(i as int),
            ).push((id, ease_number(ease))));
        }
        i = i + 1;
    }
    proof {
        assert(answers@.take(answers@.len() as int) =~= answers@);
    }
    out
}

impl Request {
    /// The parameters that the call carries: none, or one value under its
    /// key, the grades of `AnswerCards` given by their numbers.
    pub fn params(self) -> (p: Option<(&'static str, ParamValue)>)
        ensures
            opt_params(p) == params_of(self@),
    {
        match self {
            Request::Version => None,
            Request::DeckNames => None,
            Request::DeckStats(names) => Some(("decks", ParamValue::Texts(names))),
            Request::FindCards(query) => Some(("query", ParamValue::Text(query))),
            Request::CardsInfo(ids) => Some(("cards", ParamValue::Ids(ids))),
            Request::AnswerCards(answers) => Some(("answers", ParamValue::Answers(numbered(answers)))),
        }
    }
}

/// The counts of one deck as AnkiConnect reports them.
pub struct DeckStats {
    pub name: String,
    pub new_count: u32,
    pub learn_count: u32,
    pub review_count: u32,
}

/// The deck that reported counts describe.
pub open spec fn deck_of(dto: DeckStats) -> Deck {
    Deck {
        name: dto.name,
        new_count: dto.new_count,
        learn_count: dto.learn_count,
        review_count: dto.review_count,
    }
}

impl From<DeckStats> for Deck {
    fn from(dto: DeckStats) -> (d: Deck) {
        Deck {
            name: dto.name,
            new_count: dto.new_count,
            learn_count: dto.learn_count,
            review_count: dto.review_count,
        }
    }
}

impl vstd::std_specs::convert::FromSpecImpl<DeckStats> for Deck {
    open spec fn obeys_from_spec() -> bool {
        true
    }

    open spec fn from_spec(dto: DeckStats) -> Deck {
        deck_of(dto)
    }
}

/// One card as AnkiConnect describes it.
pub struct CardInfo {
    pub card_id: CardId,
    pub question: String,
    pub answer: String,
    pub deck_name: String,
}

/// The card that a description describes.
pub open spec fn card_of(dto: CardInfo) -> Card {
    Card {
        id: dto.card_id,
        deck_name: dto.deck_name,
        question_html: dto.question,
        answer_html: dto.answer,
    }
}

impl From<CardInfo> for Card {
    fn from(dto: CardInfo) -> (c: Card) {
        Card {
            id: dto.card_id,
            deck_name: dto.deck_name,
            question_html: dto.question,
            answer_html: dto.answer,
        }
    }
}

impl vstd::std_specs::convert::FromSpecImpl<CardInfo> for Card {
    open spec fn obeys_from_spec() -> bool {
        true
    }

    open spec fn from_spec(dto: CardInfo) -> Card {
        card_of(dto)
    }
}

/// Turns the reported counts of decks into decks, in the order given.
pub fn decks_from_stats(raw: Vec<DeckStats>) -> (decks: Vec<Deck>)
    ensures
        decks@ == raw@.map_values(|dto: DeckStats| deck_of(dto)),
{
    let ghost orig = raw@;
    let mut rest = raw;
    let mut decks: Vec<Deck> = Vec::new();
    while rest.len() > 0
        invariant
            decks@.len() + rest@.len() == orig.len(),
            rest@ == orig.skip(decks@.len() as int),
            decks@ == orig.take(decks@.len() as int).map_values(|dto: DeckStats| deck_of(dto)),
        decreases rest.len(),
    {
        let dto = rest.remove(0);
        let ghost k = decks@.len() as int;
        decks.push(Deck::from(dto));
        proof {
            assert(orig.skip(k)[0] == orig[k]);
            assert(orig.skip(k).remove(0) =~= orig.skip(k + 1));
            assert(orig.take(k + 1).map_values(|dto: DeckStats| deck_of(dto)) =~= orig.take(
                k,
            ).map_values(|dto: DeckStats| deck_of(dto)).push(deck_of(orig[k])));
        }
    }
    proof {
        assert(orig.take(orig.len() as int) =~= orig);
    }
    decks
}

/// Turns the descriptions of cards into cards, in the order given.
pub fn cards_from_info(raw: Vec<CardInfo>) -> (cards: Vec<Card>)
    ensures
        cards@ == raw@.map_values(|dto: CardInfo| card_of(dto)),
{
    let ghost orig = raw@;
    let mut rest = raw;
    let mut cards: Vec<Card> = Vec::new();
    while rest.len() > 0
        invariant
            cards@.len() + rest@.len() == orig.len(),
            rest@ == orig.skip(cards@.len() as int),
            cards@ == orig.take(cards@.len() as int).map_values(|dto: CardInfo| card_of(dto)),
        decreases rest.len(),
    {
        let dto = rest.remove(0);
        let ghost k = cards@.len() as int;
        cards.push(Card::from(dto));
        proof {
            assert(orig.skip(k)[0] == orig[k]);
            assert(orig.skip(k).remove(0) =~= orig.skip(k + 1));
            assert(orig.take(k + 1).map_values(|dto: CardInfo| card_of(dto)) =~= orig.take(
                k,
            ).map_values(|dto: CardInfo| card_of(dto)).push(card_of(orig[k])));
        }
    }
    proof {
        assert(orig.take(orig.len() as int) =~= orig);
    }
    cards
}

} // verus!
