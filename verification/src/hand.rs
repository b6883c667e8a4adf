//! A hand of cards held by a player, populated by drawing from a deck.

use vstd::prelude::*;

use crate::card::Card;

verus! {

/// An ordered sequence of cards. A hand is produced by `Deck::draw` and
/// grows by merging other hands into it.
#[derive(Debug)]
pub struct Hand {
    pub cards: Vec<Card>,
}

impl View for Hand {
    type V = Seq<Card>;

    open spec fn view(&self) -> Seq<Card> {
        self.cards@
    }
}

impl Hand {
    /// Moves all of `other_hand`'s cards, in order, to the back of this
    /// hand; `other_hand` is consumed.
    pub fn add(&mut self, other_hand: Hand)
        ensures
            final(self)@ == old(self)@ + other_hand@,
    {
        let mut other_hand = other_hand;
        self.cards.append(&mut other_hand.cards);
    }

    /// The number of cards in the hand.
    pub fn len(&self) -> (n: usize)
        ensures
            n == self@.len(),
    {
        self.cards.len()
    }
}

} // verus!
