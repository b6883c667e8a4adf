//! An ordered deck of cards, operated on from its front ("top").

use vstd::arithmetic::div_mod::{
    lemma_fundamental_div_mod, lemma_fundamental_div_mod_converse,
};
use vstd::prelude::*;

use rand::seq::SliceRandom;

use crate::card::{
    lemma_rank_index_inverse, lemma_rank_of_index_inverse, lemma_suit_index_inverse,
    lemma_suit_of_index_inverse, rank_index, rank_of_index, suit_index, suit_of_index, Card, Rank,
    Suit,
};
use crate::hand::Hand;

verus! {

/// The one failure the deck can report: a draw asked for more cards than
/// the deck holds.
#[derive(Debug, Clone, Copy, PartialEq, Eq, Structural)]
pub enum DeckError {
    InsufficientCards,
}

/// An ordered, mutable sequence of cards; index 0 is the top of the deck.
#[derive(Debug)]
pub struct Deck {
    cards: Vec<Card>,
}

/// The 52 cards of a fresh deck in construction order: for each suit in
/// enumeration order, the 13 ranks in enumeration order.
pub open spec fn full_deck() -> Seq<Card> {
    Seq::new(
        52,
        |i: int| Card { rank: rank_of_index(i % 13), suit: suit_of_index(i / 13) },
    )
}

impl View for Deck {
    type V = Seq<Card>;

    closed spec fn view(&self) -> Seq<Card> {
        self.cards@
    }
}

impl Deck {
    /// Returns an empty deck of cards.
    pub fn empty() -> (d: Deck)
        ensures
            d@ == Seq::<Card>::empty(),
            d@.len() == 0,
    {
        Deck { cards: Vec::new() }
    }

    /// Creates a new deck of 52 playing cards in construction order, not
    /// shuffled. To create a shuffled deck, use `shuffled()`.
    pub fn new() -> (d: Deck)
        ensures
            d@ == full_deck(),
            d@.len() == 52,
    {
        let mut cards: Vec<Card> = Vec::new();
        let mut s: usize = 0;
        while s < 4
            invariant
                s <= 4,
                cards@.len() == s * 13,
                forall|k: int| 0 <= k < cards@.len() ==> cards@[k] == full_deck()[k],
            decreases 4 - s,
        {
            let mut r: usize = 0;
            while r < 13
                invariant
                    s < 4,
                    r <= 13,
                    cards@.len() == s * 13 + r,
                    forall|k: int| 0 <= k < cards@.len() ==> cards@[k] == full_deck()[k],
                decreases 13 - r,
            {
                let rank = Rank::from_index(r);
                let suit = Suit::from_index(s);
                proof {
                    lemma_fundamental_div_mod_converse(
                        s as int * 13 + r as int,
                        13,
                        s as int,
                        r as int,
                    );
                }
                cards.push(Card::new(rank, suit));
                r = r + 1;
            }
            s = s + 1;
        }
        assert(cards@ =~= full_deck());
        Deck { cards }
    }

    /// Creates, shuffles, and returns a full deck: shorthand for `new()`
    /// followed by `shuffle()`.
    pub fn shuffled() -> (d: Deck)
        ensures
            d@.len() == 52,
            d@.to_multiset() == full_deck().to_multiset(),
    {
        let mut deck = Deck::new();
        deck.shuffle();
        deck
    }

    /// Shuffles the deck in place. The cards afterwards are a permutation
    /// of the cards before: same length, same multiset.
    pub fn shuffle(&mut self)
        ensures
            final(self)@.len() == old(self)@.len(),
            final(self)@.to_multiset() == old(self)@.to_multiset(),
    {
        shuffle_in_place(&mut self.cards);
    }

    /// Draws the given number of cards from the top of the deck.
    ///
    /// Succeeds exactly when the deck holds at least that many cards,
    /// moving the top cards, in order, into the returned hand. Otherwise
    /// fails with `InsufficientCards` and leaves the deck unchanged.
    pub fn draw(&mut self, number_of_cards: u8) -> (result: Result<Hand, DeckError>)
        ensures
            number_of_cards as int <= old(self)@.len() ==> (result matches Ok(hand)
                && hand@ == old(self)@.take(number_of_cards as int)
                && final(self)@ == old(self)@.skip(number_of_cards as int)),
            number_of_cards as int > old(self)@.len() ==> (result matches Err(e)
                && e == DeckError::InsufficientCards
                && final(self)@ == old(self)@),
    {
        let n = number_of_cards as usize;
        if n > self.cards.len() {
            return Err(DeckError::InsufficientCards);
        }
        let mut drawn = self.cards.split_off(n);
        core::mem::swap(&mut self.cards, &mut drawn);
        Ok(Hand { cards: drawn })
    }

    /// Discards up to the given number of cards from the top of the deck.
    ///
    /// A request beyond the deck's length is clamped silently to the full
    /// length, and `number_of_cards` is updated to the count actually
    /// discarded; this never fails.
    pub fn discard(&mut self, number_of_cards: &mut u8)
        ensures
            *final(number_of_cards) as int == vstd::math::min(
                *old(number_of_cards) as int,
                old(self)@.len() as int,
            ),
            final(self)@ == old(self)@.skip(*final(number_of_cards) as int),
            final(self)@.len() == old(self)@.len() - *final(number_of_cards) as int,
    {
        if *number_of_cards as usize > self.cards.len() {
            *number_of_cards = self.cards.len() as u8;
        }
        let mut kept = self.cards.split_off(*number_of_cards as usize);
        core::mem::swap(&mut self.cards, &mut kept);
    }

    /// Appends a single card to the back of the deck. Always succeeds.
    pub fn add_card(&mut self, card: Card)
        ensures
            final(self)@ == old(self)@.push(card),
    {
        self.cards.push(card);
    }

    /// Appends a group of cards, in order, to the back of the deck.
    /// Always succeeds.
    pub fn add_cards(&mut self, cards: Vec<Card>)
        ensures
            final(self)@ == old(self)@ + cards@,
    {
        let mut cards = cards;
        self.cards.append(&mut cards);
    }

    /// Moves all of `deck`'s cards, in order, to the back of this deck;
    /// `deck` is consumed. Always succeeds.
    pub fn add_deck(&mut self, deck: Deck)
        ensures
            final(self)@ == old(self)@ + deck@,
    {
        let mut deck = deck;
        self.cards.append(&mut deck.cards);
    }

    /// The number of cards currently in the deck.
    pub fn len(&self) -> (n: usize)
        ensures
            n == self@.len(),
    {
        self.cards.len()
    }
}

/// Relies on rand's `SliceRandom::shuffle`: it permutes the slice in place
/// (with randomness from `rand::thread_rng`), so the cards afterwards are
/// the same cards, with multiplicity, in some order.
#[verifier::external_body]
fn shuffle_in_place(cards: &mut Vec<Card>)
    ensures
        final(cards)@.len() == old(cards)@.len(),
        final(cards)@.to_multiset() == old(cards)@.to_multiset(),
{
    cards.shuffle(&mut rand::thread_rng());
}

/// The position at which `Deck::new()` places the card with rank `r` and
/// suit `s`: suits are laid out in blocks of 13, ranks inside each block.
pub open spec fn card_position(r: Rank, s: Suit) -> int {
    suit_index(s) * 13 + rank_index(r)
}

/// A fresh deck is the standard deck: it holds 52 cards, no two positions
/// hold the same (rank, suit) pair, and every (rank, suit) combination is
/// present, at its construction position.
pub proof fn lemma_full_deck_properties()
    ensures
        full_deck().len() == 52,
        forall|i: int, j: int|
            0 <= i < 52 && 0 <= j < 52 && i != j ==> full_deck()[i] != full_deck()[j],
        forall|r: Rank, s: Suit| 0 <= #[trigger] card_position(r, s) < 52,
        forall|r: Rank, s: Suit|
            full_deck()[#[trigger] card_position(r, s)] == (Card { rank: r, suit: s }),
{
    assert forall|i: int, j: int|
        0 <= i < 52 && 0 <= j < 52 && i != j implies full_deck()[i] != full_deck()[j] by {
        lemma_fundamental_div_mod(i, 13);
        lemma_fundamental_div_mod(j, 13);
        if i % 13 == j % 13 && i / 13 == j / 13 {
            assert(i == j);
        } else {
            lemma_rank_of_index_inverse(i % 13);
            lemma_rank_of_index_inverse(j % 13);
            lemma_suit_of_index_inverse(i / 13);
            lemma_suit_of_index_inverse(j / 13);
        }
    }
    assert forall|r: Rank, s: Suit|
        0 <= #[trigger] card_position(r, s) < 52
            && full_deck()[card_position(r, s)] == (Card { rank: r, suit: s }) by {
        lemma_rank_index_inverse(r);
        lemma_suit_index_inverse(s);
        let w = card_position(r, s);
        lemma_fundamental_div_mod_converse(w, 13, suit_index(s), rank_index(r));
        assert(0 <= w < 52) by (nonlinear_arith)
            requires
                0 <= suit_index(s) < 4,
                0 <= rank_index(r) < 13,
                w == suit_index(s) * 13 + rank_index(r),
        ;
    }
}

} // verus!
