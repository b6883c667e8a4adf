//! The card value types: `Rank`, `Suit` and `Card`.

use vstd::prelude::*;

verus! {

/// One of the 13 face values of a playing card, in the fixed enumeration
/// order Two through Ace.
#[derive(Debug, Clone, Copy, PartialEq, Eq, Structural)]
pub enum Rank {
    Two,
    Three,
    Four,
    Five,
    Six,
    Seven,
    Eight,
    Nine,
    Ten,
    Jack,
    Queen,
    King,
    Ace,
}

/// One of the 4 playing-card suits, in the fixed enumeration order
/// Heart, Diamond, Club, Spade.
#[derive(Debug, Clone, Copy, PartialEq, Eq, Structural)]
pub enum Suit {
    Heart,
    Diamond,
    Club,
    Spade,
}

/// An immutable (rank, suit) pair. Two cards with equal rank and suit are
/// interchangeable; nothing enforces uniqueness at construction time.
#[derive(Debug, Clone, Copy, PartialEq, Eq, Structural)]
pub struct Card {
    pub rank: Rank,
    pub suit: Suit,
}

/// The rank at position `i` of the enumeration order, Two first, Ace last.
pub open spec fn rank_of_index(i: int) -> Rank {
    if i == 0 {
        Rank::Two
    } else if i == 1 {
        Rank::Three
    } else if i == 2 {
        Rank::Four
    } else if i == 3 {
        Rank::Five
    } else if i == 4 {
        Rank::Six
    } else if i == 5 {
        Rank::Seven
    } else if i == 6 {
        Rank::Eight
    } else if i == 7 {
        Rank::Nine
    } else if i == 8 {
        Rank::Ten
    } else if i == 9 {
        Rank::Jack
    } else if i == 10 {
        Rank::Queen
    } else if i == 11 {
        Rank::King
    } else {
        Rank::Ace
    }
}

/// The position of `r` in the enumeration order: the inverse of
/// `rank_of_index` on `0..13`.
pub open spec fn rank_index(r: Rank) -> int {
    match r {
        Rank::Two => 0,
        Rank::Three => 1,
        Rank::Four => 2,
        Rank::Five => 3,
        Rank::Six => 4,
        Rank::Seven => 5,
        Rank::Eight => 6,
        Rank::Nine => 7,
        Rank::Ten => 8,
        Rank::Jack => 9,
        Rank::Queen => 10,
        Rank::King => 11,
        Rank::Ace => 12,
    }
}

/// The suit at position `i` of the enumeration order, Heart first, Spade last.
pub open spec fn suit_of_index(i: int) -> Suit {
    if i == 0 {
        Suit::Heart
    } else if i == 1 {
        Suit::Diamond
    } else if i == 2 {
        Suit::Club
    } else {
        Suit::Spade
    }
}

/// The position of `s` in the enumeration order: the inverse of
/// `suit_of_index` on `0..4`.
pub open spec fn suit_index(s: Suit) -> int {
    match s {
        Suit::Heart => 0,
        Suit::Diamond => 1,
        Suit::Club => 2,
        Suit::Spade => 3,
    }
}

impl Rank {
    /// The rank at position `i` of the enumeration order.
    pub fn from_index(i: usize) -> (r: Rank)
        requires
            i < 13,
        ensures
            r == rank_of_index(i as int),
    {
        match i {
            0 => Rank::Two,
            1 => Rank::Three,
            2 => Rank::Four,
            3 => Rank::Five,
            4 => Rank::Six,
            5 => Rank::Seven,
            6 => Rank::Eight,
            7 => Rank::Nine,
            8 => Rank::Ten,
            9 => Rank::Jack,
            10 => Rank::Queen,
            11 => Rank::King,
            _ => Rank::Ace,
        }
    }
}

impl Suit {
    /// The suit at position `i` of the enumeration order.
    pub fn from_index(i: usize) -> (s: Suit)
        requires
            i < 4,
        ensures
            s == suit_of_index(i as int),
    {
        match i {
            0 => Suit::Heart,
            1 => Suit::Diamond,
            2 => Suit::Club,
            _ => Suit::Spade,
        }
    }
}

impl Card {
    /// Builds the card with the given rank and suit; any pair is valid.
    pub fn new(rank: Rank, suit: Suit) -> (c: Card)
        ensures
            c == (Card { rank, suit }),
    {
        Card { rank, suit }
    }
}

/// Each rank sits at its own position: `rank_index` inverts
/// `rank_of_index` on `0..13`.
pub proof fn lemma_rank_of_index_inverse(i: int)
    requires
        0 <= i < 13,
    ensures
        rank_index(rank_of_index(i)) == i,
{
}

/// Each rank's position is in `0..13` and leads back to the rank:
/// `rank_of_index` inverts `rank_index`.
pub proof fn lemma_rank_index_inverse(r: Rank)
    ensures
        0 <= rank_index(r) < 13,
        rank_of_index(rank_index(r)) == r,
{
}

/// Each suit sits at its own position: `suit_index` inverts
/// `suit_of_index` on `0..4`.
pub proof fn lemma_suit_of_index_inverse(i: int)
    requires
        0 <= i < 4,
    ensures
        suit_index(suit_of_index(i)) == i,
{
}

/// Each suit's position is in `0..4` and leads back to the suit:
/// `suit_of_index` inverts `suit_index`.
pub proof fn lemma_suit_index_inverse(s: Suit)
    ensures
        0 <= suit_index(s) < 4,
        suit_of_index(suit_index(s)) == s,
{
}

} // verus!
