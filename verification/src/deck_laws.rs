//! What holds of every well-formed deck.

use vstd::prelude::*;
use vstd::seq_lib::{seq_to_set_is_finite, to_multiset_contains};
use vstd::set_lib::{lemma_int_range, lemma_subset_equality, set_int_range};

use crate::card::{Card, Rank, Suit};
use crate::deck::{is_full_deck, cursor_after, next_cursor, standard_card, standard_cards, Deck};
use crate::traits::Shufflable;

verus! {

/// Position `i` of a fresh deck holds the card whose own position is `i`.
pub proof fn lemma_standard_card_position(i: int)
    requires
        0 <= i < 52,
    ensures
        standard_card(i).spec_position() == i,
        standard_card(i).is_standard(),
{
}

/// Every rank and suit has its place in a fresh deck.
pub proof fn lemma_standard_card_of(rank: Rank, suit: Suit)
    ensures
        0 <= Card::spec_new(rank, suit).spec_position() < 52,
        standard_card(Card::spec_new(rank, suit).spec_position()) == Card::spec_new(rank, suit),
{
}

/// A fresh deck holds no card twice.
pub proof fn lemma_standard_cards_distinct()
    ensures
        standard_cards().no_duplicates(),
{
    assert forall|i: int, j: int|
        0 <= i < standard_cards().len() && 0 <= j < standard_cards().len() && i != j implies
        standard_cards()[i] != standard_cards()[j] by {
        lemma_standard_card_position(i);
        lemma_standard_card_position(j);
    }
}

/// A full deck holds a card once if the card carries the points of its rank,
/// and not at all if it does not.
pub proof fn lemma_full_deck_counts(cards: Seq<Card>, card: Card)
    requires
        is_full_deck(cards),
    ensures
        cards.to_multiset().count(card) == if card.is_standard() {
            1nat
        } else {
            0nat
        },
{
    to_multiset_contains(standard_cards(), card);
    if card.is_standard() {
        assert(card == Card::spec_new(card.rank, card.suit));
        lemma_standard_card_of(card.rank, card.suit);
        assert(standard_cards()[card.spec_position()] == card);
        assert(standard_cards().contains(card));
        lemma_standard_cards_distinct();
        standard_cards().lemma_multiset_has_no_duplicates();
    } else if standard_cards().contains(card) {
        let i = choose|i: int| 0 <= i < standard_cards().len() && standard_cards()[i] == card;
        lemma_standard_card_position(i);
    }
}

/// No two positions of a full deck hold the same card, and every card in it
/// carries the points of its rank.
pub proof fn lemma_full_deck_is_standard(cards: Seq<Card>)
    requires
        is_full_deck(cards),
    ensures
        cards.no_duplicates(),
        forall|i: int| 0 <= i < 52 ==> (#[trigger] cards[i]).is_standard(),
{
    assert forall|x: Card| cards.to_multiset().contains(x) implies cards.to_multiset().count(x)
        == 1 by {
        lemma_full_deck_counts(cards, x);
    }
    cards.lemma_multiset_has_no_duplicates_conv();
    assert forall|i: int| 0 <= i < 52 implies (#[trigger] cards[i]).is_standard() by {
        let card = cards[i];
        assert(cards.contains(card));
        to_multiset_contains(cards, card);
        lemma_full_deck_counts(cards, card);
    }
}

/// Fifty-two cards that carry the points of their ranks and have fifty-two
/// different places in a fresh deck are a full deck.
pub proof fn lemma_distinct_standard_cards_are_full(cards: Seq<Card>)
    requires
        cards.len() == 52,
        forall|i: int| 0 <= i < 52 ==> (#[trigger] cards[i]).is_standard(),
        forall|i: int, j: int|
            0 <= i < j < 52 ==> cards[i].spec_position() != cards[j].spec_position(),
    ensures
        is_full_deck(cards),
{
    let positions = cards.map_values(|card: Card| card.spec_position());
    assert forall|i: int, j: int|
        0 <= i < positions.len() && 0 <= j < positions.len() && i != j implies positions[i]
        != positions[j] by {
        if i < j {
            assert(cards[i].spec_position() != cards[j].spec_position());
        } else {
            assert(cards[j].spec_position() != cards[i].spec_position());
        }
    }
    positions.unique_seq_to_set();
    seq_to_set_is_finite(positions);
    lemma_int_range(0, 52);
    assert forall|p: int| positions.to_set().contains(p) implies set_int_range(0, 52).contains(
        p,
    ) by {
        let i = choose|i: int| 0 <= i < positions.len() && positions[i] == p;
        assert(cards[i].is_standard());
    }
    lemma_subset_equality(positions.to_set(), set_int_range(0, 52));
    assert forall|i: int, j: int|
        0 <= i < cards.len() && 0 <= j < cards.len() && i != j implies cards[i] != cards[j] by {
        assert(positions[i] != positions[j]);
    }
    cards.lemma_multiset_has_no_duplicates();
    assert forall|x: Card| cards.to_multiset().count(x) == standard_cards().to_multiset().count(
        x,
    ) by {
        lemma_full_deck_counts(standard_cards(), x);
        to_multiset_contains(cards, x);
        if x.is_standard() {
            let p = x.spec_position();
            assert(set_int_range(0, 52).contains(p));
            assert(positions.to_set().contains(p));
            let i = choose|i: int| 0 <= i < positions.len() && positions[i] == p;
            assert(cards[i].is_standard());
            assert(cards[i] == x);
            assert(cards.contains(x));
        } else if cards.contains(x) {
            let i = choose|i: int| 0 <= i < cards.len() && cards[i] == x;
            assert(cards[i].is_standard());
        }
    }
    assert(cards.to_multiset() =~= standard_cards().to_multiset());
}

/// A well-formed deck holds every combination of rank and suit exactly once,
/// however often it has been shuffled and dealt from.
pub proof fn lemma_deck_holds_each_card_once(deck: Deck, rank: Rank, suit: Suit)
    requires
        deck.well_formed(),
    ensures
        deck.card_multiset().count(Card::spec_new(rank, suit)) == 1,
{
    lemma_full_deck_counts(deck.cards@, Card::spec_new(rank, suit));
}

/// A well-formed deck holds nothing but those fifty-two cards: a card that
/// does not carry the points of its rank does not occur in it.
pub proof fn lemma_deck_holds_only_standard_cards(deck: Deck, card: Card)
    requires
        deck.well_formed(),
    ensures
        deck.card_multiset().count(card) == if card.is_standard() {
            1nat
        } else {
            0nat
        },
{
    lemma_full_deck_counts(deck.cards@, card);
}

/// The cards that a deck deals between two reshuffles are all different:
/// they lie at different positions of one order, and no two positions of a
/// well-formed deck hold the same card.
pub proof fn lemma_no_card_twice_between_reshuffles(deck: Deck, i: int, j: int)
    requires
        deck.well_formed(),
        0 <= i < j < 52,
    ensures
        deck.cards@[i] != deck.cards@[j],
{
    lemma_full_deck_is_standard(deck.cards@);
}

/// Deals that do not reach the last card move the cursor one position each.
pub proof fn lemma_cursor_advances(cursor: int, deals: nat)
    requires
        0 <= cursor,
        cursor + deals <= 51,
    ensures
        cursor_after(cursor, deals) == cursor + deals,
    decreases deals,
{
    if deals > 0 {
        lemma_cursor_advances(cursor, (deals - 1) as nat);
    }
}

/// No deck gets through fifty-two deals in a row without a reshuffle: from
/// any cursor, one of the next fifty-two deals finds the cursor on the last card,
/// and that deal reshuffles. From a fresh deck it is the fifty-second.
pub proof fn lemma_reshuffle_within_a_deck(cursor: int) -> (deals: nat)
    requires
        0 <= cursor < 52,
    ensures
        deals < 52,
        deals == 51 - cursor,
        cursor_after(cursor, deals) == 51,
        next_cursor(cursor_after(cursor, deals)) == 1,
{
    let deals = (51 - cursor) as nat;
    lemma_cursor_advances(cursor, deals);
    deals
}

} // verus!
