//! An in-memory playing-card deck: build an ordered 52-card deck, shuffle
//! it, draw and discard cards from the top, and combine decks and hands.

mod card;
mod deck;
mod hand;

pub use card::{rank_index, rank_of_index, suit_index, suit_of_index, Card, Rank, Suit};
pub use deck::{card_position, full_deck, lemma_full_deck_properties, Deck, DeckError};
pub use hand::Hand;
