use rusty_deck::{Card, Deck, Rank, Suit};

fn all_ranks() -> Vec<Rank> {
    vec![
        Rank::Two,
        Rank::Three,
        Rank::Four,
        Rank::Five,
        Rank::Six,
        Rank::Seven,
        Rank::Eight,
        Rank::Nine,
        Rank::Ten,
        Rank::Jack,
        Rank::Queen,
        Rank::King,
        Rank::Ace,
    ]
}

fn all_suits() -> Vec<Suit> {
    vec![Suit::Heart, Suit::Diamond, Suit::Club, Suit::Spade]
}

fn standard_cards() -> Vec<Card> {
    let mut cards = Vec::new();
    for suit in all_suits() {
        for rank in all_ranks() {
            cards.push(Card::new(rank, suit));
        }
    }
    cards
}

#[test]
fn shuffle_preserves_length_and_multiset() {
    let mut deck = Deck::new();
    deck.shuffle();
    assert_eq!(deck.len(), 52);
    let shuffled = deck.draw(52).unwrap().cards;
    for expected in standard_cards() {
        let count = shuffled.iter().filter(|c| **c == expected).count();
        assert_eq!(count, 1);
    }
}

#[test]
fn shuffled_deck_is_a_permutation_of_a_new_deck() {
    let mut deck = Deck::shuffled();
    assert_eq!(deck.len(), 52);
    let cards = deck.draw(52).unwrap().cards;
    for expected in standard_cards() {
        let count = cards.iter().filter(|c| **c == expected).count();
        assert_eq!(count, 1);
    }
}

#[test]
fn shuffle_hits_each_permutation_of_three_cards_about_equally_often() {
    let c0 = Card::new(Rank::Two, Suit::Heart);
    let c1 = Card::new(Rank::Three, Suit::Heart);
    let c2 = Card::new(Rank::Four, Suit::Heart);
    let mut deck = Deck::empty();
    deck.add_card(c0);
    deck.add_card(c1);
    deck.add_card(c2);

    let trials = 6000;
    let mut counts = [0usize; 6];
    for _ in 0..trials {
        deck.shuffle();
        let hand = deck.draw(3).unwrap();
        let order = &hand.cards;
        let index = match (order[0], order[1]) {
            (a, b) if a == c0 && b == c1 => 0,
            (a, b) if a == c0 && b == c2 => 1,
            (a, b) if a == c1 && b == c0 => 2,
            (a, b) if a == c1 && b == c2 => 3,
            (a, b) if a == c2 && b == c0 => 4,
            _ => 5,
        };
        counts[index] += 1;
        deck.add_cards(hand.cards);
    }

    // Expected count per permutation is trials / 6 = 1000; a uniform
    // shuffle stays far inside these bounds with overwhelming probability.
    for count in counts {
        assert!(count > 600, "permutation seen only {} times", count);
        assert!(count < 1400, "permutation seen {} times", count);
    }
}

#[test]
fn blackjack_opening_keeps_the_52_cards_split_between_hand_and_deck() {
    let mut deck = Deck::new();
    deck.shuffle();
    let mut hand = deck.draw(2).unwrap();
    hand.add(deck.draw(1).unwrap());
    assert_eq!(hand.len(), 3);
    assert_eq!(deck.len(), 49);

    let mut remaining = deck.draw(49).unwrap().cards;
    let in_hand = hand.cards.clone();
    let mut union = in_hand.clone();
    union.append(&mut remaining);
    // The 3 cards in hand are disjoint from the 49 left in the deck, and
    // together they are exactly the original 52.
    for expected in standard_cards() {
        let count = union.iter().filter(|c| **c == expected).count();
        assert_eq!(count, 1);
    }
    for card in in_hand {
        assert_eq!(union.iter().filter(|c| **c == card).count(), 1);
    }
}
