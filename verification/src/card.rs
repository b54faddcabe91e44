//! Card identity and point values.

use vstd::prelude::*;

use crate::text::append;

verus! {

/// The four suits, in the order in which a fresh deck lists them.
#[derive(Clone, Copy, Debug, PartialEq, Eq, Hash, Structural)]
pub enum Suit {
    Spades,
    Clubs,
    Diamonds,
    Hearts,
}

/// The thirteen ranks, ace first.
#[derive(Clone, Copy, Debug, PartialEq, Eq, Hash, Structural)]
pub enum Rank {
    Ace,
    Two,
    Three,
    Four,
    Five,
    Six,
    Seven,
    Eight,
    Nine,
    Ten,
    Jack,
    Queen,
    King,
}

/// A playing card. `value` holds the points the card counts for: first with
/// an ace counted low, then with an ace counted high.
#[derive(Clone, Copy, Debug, PartialEq, Eq, Hash)]
pub struct Card {
    pub rank: Rank,
    pub suit: Suit,
    pub value: (u8, u8),
}

impl Suit {
    /// Position of the suit in a fresh deck, `0..4`.
    pub open spec fn spec_index(self) -> int {
        match self {
            Suit::Spades => 0,
            Suit::Clubs => 1,
            Suit::Diamonds => 2,
            Suit::Hearts => 3,
        }
    }

    /// The suit at position `i`; positions past the last give hearts.
    pub open spec fn spec_from_index(i: int) -> Suit {
        if i == 0 {
            Suit::Spades
        } else if i == 1 {
            Suit::Clubs
        } else if i == 2 {
            Suit::Diamonds
        } else {
            Suit::Hearts
        }
    }

    /// Position of the suit in a fresh deck.
    pub fn index(self) -> (i: usize)
        ensures
            i == self.spec_index(),
            i < 4,
    {
        match self {
            Suit::Spades => 0,
            Suit::Clubs => 1,
            Suit::Diamonds => 2,
            Suit::Hearts => 3,
        }
    }

    /// The suit at position `i` of a fresh deck, if there is one.
    pub fn from_index(i: usize) -> (suit: Option<Suit>)
        ensures
            i < 4 ==> suit == Some(Suit::spec_from_index(i as int)),
            i >= 4 ==> suit.is_none(),
    {
        if i == 0 {
            Some(Suit::Spades)
        } else if i == 1 {
            Some(Suit::Clubs)
        } else if i == 2 {
            Some(Suit::Diamonds)
        } else if i == 3 {
            Some(Suit::Hearts)
        } else {
            None
        }
    }
}

impl Rank {
    /// Position of the rank within a suit, `0..13`.
    pub open spec fn spec_index(self) -> int {
        match self {
            Rank::Ace => 0,
            Rank::Two => 1,
            Rank::Three => 2,
            Rank::Four => 3,
            Rank::Five => 4,
            Rank::Six => 5,
            Rank::Seven => 6,
            Rank::Eight => 7,
            Rank::Nine => 8,
            Rank::Ten => 9,
            Rank::Jack => 10,
            Rank::Queen => 11,
            Rank::King => 12,
        }
    }

    /// The rank at position `i`; positions past the last give the king.
    pub open spec fn spec_from_index(i: int) -> Rank {
        if i == 0 {
            Rank::Ace
        } else if i == 1 {
            Rank::Two
        } else if i == 2 {
            Rank::Three
        } else if i == 3 {
            Rank::Four
        } else if i == 4 {
            Rank::Five
        } else if i == 5 {
            Rank::Six
        } else if i == 6 {
            Rank::Seven
        } else if i == 7 {
            Rank::Eight
        } else if i == 8 {
            Rank::Nine
        } else if i == 9 {
            Rank::Ten
        } else if i == 10 {
            Rank::Jack
        } else if i == 11 {
            Rank::Queen
        } else {
            Rank::King
        }
    }

    /// Points of the rank: an ace counts 1 or 11, a face card 10, any other
    /// rank its number.
    pub open spec fn spec_value(self) -> (u8, u8) {
        match self {
            Rank::Ace => (1u8, 11u8),
            Rank::Jack | Rank::Queen | Rank::King => (10u8, 10u8),
            _ => ((self.spec_index() + 1) as u8, (self.spec_index() + 1) as u8),
        }
    }

    /// Position of the rank within a suit.
    pub fn index(self) -> (i: usize)
        ensures
            i == self.spec_index(),
            i < 13,
    {
        match self {
            Rank::Ace => 0,
            Rank::Two => 1,
            Rank::Three => 2,
            Rank::Four => 3,
            Rank::Five => 4,
            Rank::Six => 5,
            Rank::Seven => 6,
            Rank::Eight => 7,
            Rank::Nine => 8,
            Rank::Ten => 9,
            Rank::Jack => 10,
            Rank::Queen => 11,
            Rank::King => 12,
        }
    }

    /// The rank at position `i` within a suit, if there is one.
    pub fn from_index(i: usize) -> (rank: Option<Rank>)
        ensures
            i < 13 ==> rank == Some(Rank::spec_from_index(i as int)),
            i >= 13 ==> rank.is_none(),
    {
        if i == 0 {
            Some(Rank::Ace)
        } else if i == 1 {
            Some(Rank::Two)
        } else if i == 2 {
            Some(Rank::Three)
        } else if i == 3 {
            Some(Rank::Four)
        } else if i == 4 {
            Some(Rank::Five)
        } else if i == 5 {
            Some(Rank::Six)
        } else if i == 6 {
            Some(Rank::Seven)
        } else if i == 7 {
            Some(Rank::Eight)
        } else if i == 8 {
            Some(Rank::Nine)
        } else if i == 9 {
            Some(Rank::Ten)
        } else if i == 10 {
            Some(Rank::Jack)
        } else if i == 11 {
            Some(Rank::Queen)
        } else if i == 12 {
            Some(Rank::King)
        } else {
            None
        }
    }

    /// Points of the rank, low first.
    #[verifier::when_used_as_spec(spec_value)]
    pub fn value(self) -> (v: (u8, u8))
        ensures
            v == self.spec_value(),
            1 <= v.0 <= v.1 <= 11,
    {
        match self {
            Rank::Ace => (1, 11),
            Rank::Two => (2, 2),
            Rank::Three => (3, 3),
            Rank::Four => (4, 4),
            Rank::Five => (5, 5),
            Rank::Six => (6, 6),
            Rank::Seven => (7, 7),
            Rank::Eight => (8, 8),
            Rank::Nine => (9, 9),
            Rank::Ten | Rank::Jack | Rank::Queen | Rank::King => (10, 10),
        }
    }
}

impl Suit {
    /// The name of the suit, as the picture of a card is named after it.
    pub open spec fn spec_name(self) -> Seq<char> {
        match self {
            Suit::Spades => "spades"@,
            Suit::Clubs => "clubs"@,
            Suit::Diamonds => "diamonds"@,
            Suit::Hearts => "hearts"@,
        }
    }

    /// The name of the suit.
    pub fn name(self) -> (name: &'static str)
        ensures
            name@ == self.spec_name(),
    {
        match self {
            Suit::Spades => "spades",
            Suit::Clubs => "clubs",
            Suit::Diamonds => "diamonds",
            Suit::Hearts => "hearts",
        }
    }
}

impl Rank {
    /// The name of the rank, as the picture of a card is named after it: a
    /// word for the ace and the face cards, the number for the others.
    pub open spec fn spec_name(self) -> Seq<char> {
        match self {
            Rank::Ace => "ace"@,
            Rank::Two => "2"@,
            Rank::Three => "3"@,
            Rank::Four => "4"@,
            Rank::Five => "5"@,
            Rank::Six => "6"@,
            Rank::Seven => "7"@,
            Rank::Eight => "8"@,
            Rank::Nine => "9"@,
            Rank::Ten => "10"@,
            Rank::Jack => "jack"@,
            Rank::Queen => "queen"@,
            Rank::King => "king"@,
        }
    }

    /// The name of the rank.
    pub fn name(self) -> (name: &'static str)
        ensures
            name@ == self.spec_name(),
    {
        match self {
            Rank::Ace => "ace",
            Rank::Two => "2",
            Rank::Three => "3",
            Rank::Four => "4",
            Rank::Five => "5",
            Rank::Six => "6",
            Rank::Seven => "7",
            Rank::Eight => "8",
            Rank::Nine => "9",
            Rank::Ten => "10",
            Rank::Jack => "jack",
            Rank::Queen => "queen",
            Rank::King => "king",
        }
    }
}

impl Card {
    /// Where the picture of the card's face is kept.
    pub open spec fn spec_front_asset_path(self) -> Seq<char> {
        "deck/"@ + self.rank.spec_name() + "_of_"@ + self.suit.spec_name() + ".png"@
    }

    /// Where the picture of the card's face is kept.
    pub fn front_asset_path(&self) -> (path: String)
        ensures
            path@ == self.spec_front_asset_path(),
    {
        let mut path = String::new();
        append(&mut path, "deck/");
        append(&mut path, self.rank.name());
        append(&mut path, "_of_");
        append(&mut path, self.suit.name());
        append(&mut path, ".png");
        assert(path@ =~= self.spec_front_asset_path());
        path
    }

    /// Where the picture of a card's back is kept; it is the same for every
    /// card.
    pub fn back_asset_path(&self) -> (path: &'static str)
        ensures
            path@ == "deck/card_back.png"@,
    {
        "deck/card_back.png"
    }

    /// The card of the given rank and suit, carrying the rank's points.
    pub open spec fn spec_new(rank: Rank, suit: Suit) -> Card {
        Card { rank, suit, value: rank.spec_value() }
    }

    /// Whether the card carries the points of its rank.
    pub open spec fn is_standard(self) -> bool {
        self.value == self.rank.spec_value()
    }

    /// Position of the card in a fresh, unshuffled deck: suits in order,
    /// thirteen ranks within each suit.
    pub open spec fn spec_position(self) -> int {
        self.suit.spec_index() * 13 + self.rank.spec_index()
    }

    /// Whether the card carries the points of its rank.
    pub fn carries_rank_points(&self) -> (standard: bool)
        ensures
            standard == self.is_standard(),
    {
        let points = self.rank.value();
        self.value.0 == points.0 && self.value.1 == points.1
    }

    /// The card of the given rank and suit, carrying the rank's points.
    #[verifier::when_used_as_spec(spec_new)]
    pub fn new(rank: Rank, suit: Suit) -> (card: Card)
        ensures
            card == Card::spec_new(rank, suit),
            card.is_standard(),
    {
        Card { rank, suit, value: rank.value() }
    }

    /// Position of the card in a fresh, unshuffled deck.
    pub fn position(self) -> (p: usize)
        ensures
            p == self.spec_position(),
            p < 52,
    {
        self.suit.index() * 13 + self.rank.index()
    }
}

} // verus!
