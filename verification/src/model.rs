use vstd::prelude::*;

verus! {

/// Anki's identifier of a card.
pub type CardId = i64;

/// A deck with its counts of cards due today.
#[derive(Debug, Clone, PartialEq, Eq)]
pub struct Deck {
    pub name: String,
    pub new_count: u32,
    pub learn_count: u32,
    pub review_count: u32,
}

impl Deck {
    /// The number of cards due in the deck over all three queues.
    pub open spec fn spec_due_count(&self) -> int {
        self.new_count + self.learn_count + self.review_count
    }

    /// The number of cards due today: new, learning and review cards together.
    pub fn due_count(&self) -> (n: u32)
        requires
            self.spec_due_count() <= u32::MAX,
        ensures
            n == self.spec_due_count(),
    {
        self.new_count + self.learn_count + self.review_count
    }
}

/// A single card ready to be shown for review. `question_html`/`answer_html`
/// are Anki's fully rendered HTML (cloze deletions already resolved).
#[derive(Debug, Clone, PartialEq, Eq)]
pub struct Card {
    pub id: CardId,
    pub deck_name: String,
    pub question_html: String,
    pub answer_html: String,
}

/// The grade given to a card after review, matching Anki's own 1-4 scale.
#[derive(Debug, Clone, Copy, PartialEq, Eq, Structural)]
pub enum Ease {
    Again,
    Hard,
    Good,
    Easy,
}

/// The number of a grade on Anki's scale.
pub open spec fn ease_number(e: Ease) -> u8 {
    match e {
        Ease::Again => 1,
        Ease::Hard => 2,
        Ease::Good => 3,
        Ease::Easy => 4,
    }
}

/// The grade that a number stands for, if any.
pub open spec fn ease_of_number(n: u8) -> Option<Ease> {
    if n == 1 {
        Some(Ease::Again)
    } else if n == 2 {
        Some(Ease::Hard)
    } else if n == 3 {
        Some(Ease::Good)
    } else if n == 4 {
        Some(Ease::Easy)
    } else {
        None
    }
}

/// The name under which a grade is shown.
pub open spec fn ease_label(e: Ease) -> Seq<char> {
    match e {
        Ease::Again => "Again"@,
        Ease::Hard => "Hard"@,
        Ease::Good => "Good"@,
        Ease::Easy => "Easy"@,
    }
}

impl Ease {
    /// The grade bound to a number key, `None` outside 1 to 4.
    pub fn from_key(n: u8) -> (e: Option<Self>)
        ensures
            e == ease_of_number(n),
    {
        match n {
            1 => Some(Ease::Again),
            2 => Some(Ease::Hard),
            3 => Some(Ease::Good),
            4 => Some(Ease::Easy),
            _ => None,
        }
    }

    /// The grade's number on Anki's scale.
    pub fn as_u8(self) -> (n: u8)
        ensures
            n == ease_number(self),
    {
        match self {
            Ease::Again => 1,
            Ease::Hard => 2,
            Ease::Good => 3,
            Ease::Easy => 4,
        }
    }

    /// The grade's name.
    pub fn label(self) -> (s: &'static str)
        ensures
            s@ == ease_label(self),
    {
        match self {
            Ease::Again => "Again",
            Ease::Hard => "Hard",
            Ease::Good => "Good",
            Ease::Easy => "Easy",
        }
    }
}

/// The number keys 1 to 4 and the four grades correspond one to one: a key
/// gives a grade whose number is the key, every grade comes back from its own
/// number, and no other number names a grade.
pub proof fn lemma_ease_keys_round_trip(n: u8, e: Ease)
    ensures
        1 <= n <= 4 <==> ease_of_number(n) is Some,
        1 <= n <= 4 ==> ease_number(ease_of_number(n)->0) == n,
        ease_of_number(ease_number(e)) == Some(e),
        1 <= ease_number(e) <= 4,
{
}

} // verus!
