//! The deck: fifty-two cards in some order and a cursor on the card to be
//! dealt next.

use rand::Rng;
use vstd::multiset::Multiset;
use vstd::prelude::*;
use vstd::seq_lib::{to_multiset_contains, to_multiset_update};

use crate::card::{Card, Rank, Suit};
use crate::deck_laws::{lemma_distinct_standard_cards_are_full, lemma_full_deck_is_standard};
use crate::traits::{Dealable, Shufflable};

verus! {

/// Number of cards in a deck.
pub const DECK_SIZE: usize = 52;

/// The card at position `i` of a fresh, unshuffled deck: suits in order,
/// thirteen ranks within each suit.
pub open spec fn standard_card(i: int) -> Card {
    Card::spec_new(Rank::spec_from_index(i % 13), Suit::spec_from_index(i / 13))
}

/// The fifty-two cards of a fresh, unshuffled deck.
pub open spec fn standard_cards() -> Seq<Card> {
    Seq::new(52, |i: int| standard_card(i))
}

/// Whether the cards are the fifty-two of a deck, each once, in any order.
pub open spec fn is_full_deck(cards: Seq<Card>) -> bool {
    cards.len() == 52 && cards.to_multiset() == standard_cards().to_multiset()
}

/// Where the cursor stands after one more deal: one card on; or, when it
/// stood on the last card, behind the first card of the reshuffled deck.
pub open spec fn next_cursor(cursor: int) -> int {
    if cursor == 51 {
        1
    } else {
        cursor + 1
    }
}

/// Where the cursor stands after `deals` further deals.
pub open spec fn cursor_after(cursor: int, deals: nat) -> int
    decreases deals,
{
    if deals == 0 {
        cursor
    } else {
        next_cursor(cursor_after(cursor, (deals - 1) as nat))
    }
}

/// What one deal makes of a deck and hands out. The card under the cursor is
/// handed out and the cursor moves one card on, the order staying as it is;
/// but a deal that finds the cursor on the last card reshuffles first and
/// hands out the first card of the new order.
pub open spec fn card_dealt(before: Deck, after: Deck, card: Card) -> bool {
    &&& after.well_formed()
    &&& after.cursor == next_cursor(before.cursor as int)
    &&& before.cursor != 51 ==> after.cards@ == before.cards@
    &&& card == after.cards@[after.cursor - 1]
}

/// What dealing the cards `dealt` one after another makes of a deck, for
/// fewer cards than a deck holds. As long as the cursor has not reached the
/// last card, the order stays and the cards come from the positions from the
/// old cursor on. The deal after that reshuffles, and the cards from then on
/// come from the first positions of the new order.
pub open spec fn cards_dealt(before: Deck, after: Deck, dealt: Seq<Card>) -> bool {
    let cursor = before.cursor as int;
    let count = dealt.len() as int;
    &&& after.well_formed()
    &&& count <= 51
    &&& if cursor + count <= 51 {
        &&& after.cards@ == before.cards@
        &&& after.cursor == cursor + count
        &&& forall|k: int| 0 <= k < count ==> dealt[k] == before.cards@[cursor + k]
    } else {
        &&& after.cursor == cursor + count - 51
        &&& forall|k: int| 0 <= k < 51 - cursor ==> dealt[k] == before.cards@[cursor + k]
        &&& forall|k: int| 51 - cursor <= k < count ==> dealt[k] == after.cards@[k - (51 - cursor)]
    }
}

/// One more deal extends a run of deals by the card it hands out.
pub proof fn lemma_cards_dealt_one_more(
    before: Deck,
    middle: Deck,
    after: Deck,
    dealt: Seq<Card>,
    card: Card,
)
    requires
        before.well_formed(),
        cards_dealt(before, middle, dealt),
        dealt.len() < 51,
        card_dealt(middle, after, card),
    ensures
        cards_dealt(before, after, dealt.push(card)),
{
    let cursor = before.cursor as int;
    let count = dealt.len() as int;
    let longer = dealt.push(card);
    if cursor + count <= 51 {
        if cursor + count == 51 {
            assert forall|k: int| 51 - cursor <= k < count + 1 implies longer[k] == after.cards@[k
                - (51 - cursor)] by {
                assert(k == count);
            }
        }
    } else {
        assert(middle.cursor != 51);
    }
}

/// What dealing an opening hand makes of a deck and hands out. A deck with
/// its cursor on position 0, from which nothing has been dealt, is shuffled
/// first. Then two cards are dealt: they are the two cards before the cursor
/// of the deck as it is left, unless the second deal reshuffled; then the
/// first card is the one that was last but one in the old order.
pub open spec fn opening_cards_dealt(before: Deck, after: Deck, cards: Seq<Card>) -> bool {
    &&& cards.len() == 2
    &&& after.well_formed()
    &&& after.cursor == next_cursor(next_cursor(before.cursor as int))
    &&& 1 <= before.cursor <= 49 ==> after.cards@ == before.cards@
    &&& after.cursor >= 2 ==> cards[0] == after.cards@[after.cursor - 2]
    &&& after.cursor < 2 ==> cards[0] == before.cards@[50]
    &&& cards[1] == after.cards@[after.cursor - 1]
}

/// The cards of an opening hand carry the points of their ranks.
pub proof fn lemma_opening_cards_are_standard(before: Deck, after: Deck, cards: Seq<Card>)
    requires
        before.well_formed(),
        opening_cards_dealt(before, after, cards),
    ensures
        cards.len() == 2,
        cards[0].is_standard(),
        cards[1].is_standard(),
{
    lemma_full_deck_is_standard(before.cards@);
    lemma_full_deck_is_standard(after.cards@);
}

/// Exchanging two entries of a sequence.
pub open spec fn swapped(cards: Seq<Card>, i: int, j: int) -> Seq<Card> {
    cards.update(i, cards[j]).update(j, cards[i])
}

/// The cards after a run of exchanges: exchange number `i`, counted from 0,
/// exchanges the card at position `i` with the card at position `picks[i]`.
pub open spec fn shuffled_by(cards: Seq<Card>, picks: Seq<int>) -> Seq<Card>
    decreases picks.len(),
{
    if picks.len() == 0 {
        cards
    } else {
        swapped(shuffled_by(cards, picks.drop_last()), picks.len() - 1, picks.last())
    }
}

/// Whether `picks` names one position for each of `count` cards, each among
/// all `count` positions.
pub open spec fn picks_for(picks: Seq<int>, count: int) -> bool {
    picks.len() == count && forall|i: int| 0 <= i < count ==> 0 <= #[trigger] picks[i] < count
}

/// Whether `after` is a shuffle of `before`: every position was visited
/// once, first to last, and its card exchanged with the card at a position
/// picked from the whole row, the positions already visited among them.
pub open spec fn is_shuffle_of(before: Seq<Card>, after: Seq<Card>) -> bool {
    exists|picks: Seq<int>| #[trigger]
        picks_for(picks, before.len() as int) && after == shuffled_by(before, picks)
}

/// A run of exchanges within a row of cards keeps the cards of the row.
pub proof fn lemma_shuffled_by_keeps_cards(cards: Seq<Card>, picks: Seq<int>)
    requires
        picks.len() <= cards.len(),
        forall|i: int| 0 <= i < picks.len() ==> 0 <= #[trigger] picks[i] < cards.len(),
    ensures
        shuffled_by(cards, picks).len() == cards.len(),
        shuffled_by(cards, picks).to_multiset() == cards.to_multiset(),
    decreases picks.len(),
{
    if picks.len() > 0 {
        let earlier = picks.drop_last();
        assert forall|i: int| 0 <= i < earlier.len() implies 0 <= #[trigger] earlier[i]
            < cards.len() by {
            assert(earlier[i] == picks[i]);
        }
        lemma_shuffled_by_keeps_cards(cards, earlier);
        lemma_swapped_keeps_cards(shuffled_by(cards, earlier), picks.len() - 1, picks.last());
    }
}

/// A shuffle keeps the cards: none is gained, none is lost.
pub proof fn lemma_shuffle_keeps_cards(before: Seq<Card>, after: Seq<Card>)
    requires
        is_shuffle_of(before, after),
    ensures
        after.len() == before.len(),
        after.to_multiset() == before.to_multiset(),
{
    let picks = choose|picks: Seq<int>| #[trigger]
        picks_for(picks, before.len() as int) && after == shuffled_by(before, picks);
    lemma_shuffled_by_keeps_cards(before, picks);
}

/// A deck of cards. `cursor` is the position of the card that is dealt next;
/// the cards before it have been dealt since the last shuffle. A fresh deck
/// starts with the cursor on position 0. The cursor never passes the last
/// position: a deal that finds it there reshuffles instead, so the card at
/// the last position is never dealt.
#[derive(Clone, Debug)]
pub struct Deck {
    pub cards: Vec<Card>,
    pub cursor: usize,
}

/// Exchanging two entries keeps the cards of a sequence.
pub proof fn lemma_swapped_keeps_cards(cards: Seq<Card>, i: int, j: int)
    requires
        0 <= i < cards.len(),
        0 <= j < cards.len(),
    ensures
        swapped(cards, i, j).len() == cards.len(),
        swapped(cards, i, j).to_multiset() == cards.to_multiset(),
{
    broadcast use vstd::multiset::group_multiset_axioms;

    let first = cards.update(i, cards[j]);
    to_multiset_update(cards, i, cards[j]);
    to_multiset_update(first, j, cards[i]);
    assert(first[j] == cards[j]);
    assert(cards.contains(cards[i]));
    assert(cards.contains(cards[j]));
    to_multiset_contains(cards, cards[i]);
    to_multiset_contains(cards, cards[j]);
    assert(swapped(cards, i, j).to_multiset() =~= cards.to_multiset());
}

/// Draws a number below `bound` from `rand`'s thread-local generator, by
/// `Rng::gen_range` on the half-open range from 0 to `bound`. Which number
/// comes back is left open; an empty range is excluded because `gen_range`
/// panics on it.
#[verifier::external_body]
fn random_index(bound: usize) -> (index: usize)
    requires
        bound > 0,
    ensures
        index < bound,
{
    rand::thread_rng().gen_range(0..bound)
}

impl Deck {
    /// The fifty-two cards in their fresh order, with the cursor on the first.
    pub fn unshuffled() -> (deck: Deck)
        ensures
            deck.cards@ == standard_cards(),
            deck.cursor == 0,
            deck.well_formed(),
    {
        let mut cards: Vec<Card> = Vec::new();
        let mut suit_index: usize = 0;
        while suit_index < 4
            invariant
                suit_index <= 4,
                cards@.len() == 13 * suit_index,
                forall|k: int| 0 <= k < cards@.len() ==> cards@[k] == standard_card(k),
            decreases 4 - suit_index,
        {
            let mut rank_index: usize = 0;
            while rank_index < 13
                invariant
                    suit_index < 4,
                    rank_index <= 13,
                    cards@.len() == 13 * suit_index + rank_index,
                    forall|k: int| 0 <= k < cards@.len() ==> cards@[k] == standard_card(k),
                decreases 13 - rank_index,
            {
                match (Rank::from_index(rank_index), Suit::from_index(suit_index)) {
                    (Some(rank), Some(suit)) => {
                        cards.push(Card::new(rank, suit));
                    },
                    _ => {},
                }
                rank_index += 1;
            }
            suit_index += 1;
        }
        assert(cards@ =~= standard_cards());
        Deck { cards, cursor: 0 }
    }

    /// A deck of the fifty-two cards in random order, ready to deal.
    pub fn new_shuffled() -> (deck: Deck)
        ensures
            deck.well_formed(),
            deck.cursor == 0,
    {
        let mut deck = Deck::unshuffled();
        deck.shuffle();
        deck
    }

    /// Whether the deck is well-formed: fifty-two cards, every combination
    /// of rank and suit once with the points of the rank, and the cursor on
    /// one of them.
    pub fn is_valid(&self) -> (valid: bool)
        ensures
            valid == self.well_formed(),
    {
        if self.cards.len() != 52 || self.cursor >= 52 {
            return false;
        }
        let mut seen: Vec<bool> = Vec::new();
        while seen.len() < 52
            invariant
                seen@.len() <= 52,
                forall|p: int| 0 <= p < seen@.len() ==> !seen@[p],
            decreases 52 - seen@.len(),
        {
            seen.push(false);
        }
        let mut i: usize = 0;
        while i < 52
            invariant
                i <= 52,
                self.cards@.len() == 52,
                seen@.len() == 52,
                forall|k: int| 0 <= k < i ==> (#[trigger] self.cards@[k]).is_standard(),
                forall|k: int, l: int|
                    0 <= k < l < i ==> self.cards@[k].spec_position()
                        != self.cards@[l].spec_position(),
                forall|p: int|
                    0 <= p < 52 ==> (seen@[p] <==> exists|k: int|
                        0 <= k < i && (#[trigger] self.cards@[k]).spec_position() == p),
            decreases 52 - i,
        {
            let card = self.cards[i];
            if !card.carries_rank_points() {
                proof {
                    if is_full_deck(self.cards@) {
                        lemma_full_deck_is_standard(self.cards@);
                    }
                }
                return false;
            }
            let place = card.position();
            if seen[place] {
                proof {
                    let k = choose|k: int|
                        0 <= k < i && (#[trigger] self.cards@[k]).spec_position() == place;
                    assert(self.cards@[k] == self.cards@[i as int]);
                    if is_full_deck(self.cards@) {
                        lemma_full_deck_is_standard(self.cards@);
                    }
                }
                return false;
            }
            seen[place] = true;
            proof {
                assert forall|p: int| 0 <= p < 52 implies (seen@[p] <==> exists|k: int|
                    0 <= k < i + 1 && (#[trigger] self.cards@[k]).spec_position() == p) by {
                    if p == place {
                        assert(self.cards@[i as int].spec_position() == p);
                    } else if seen@[p] {
                        let k = choose|k: int|
                            0 <= k < i && (#[trigger] self.cards@[k]).spec_position() == p;
                        assert(0 <= k < i + 1 && self.cards@[k].spec_position() == p);
                    }
                }
            }
            i += 1;
        }
        proof {
            lemma_distinct_standard_cards_are_full(self.cards@);
        }
        true
    }

    /// Deals the two cards of an opening hand, after shuffling the deck if
    /// its cursor is on position 0.
    pub fn deal_opening_cards(&mut self) -> (cards: Vec<Card>)
        requires
            old(self).well_formed(),
        ensures
            opening_cards_dealt(*old(self), *final(self), cards@),
    {
        if self.cursor == 0 {
            self.shuffle();
        }
        let mut cards: Vec<Card> = Vec::new();
        let first = self.deal();
        cards.push(first);
        let second = self.deal();
        cards.push(second);
        cards
    }

    /// Exchanges the cards at positions `i` and `j`.
    pub fn swap_cards(&mut self, i: usize, j: usize)
        requires
            i < old(self).cards@.len(),
            j < old(self).cards@.len(),
        ensures
            final(self).cards@ == swapped(old(self).cards@, i as int, j as int),
            final(self).cursor == old(self).cursor,
            final(self).card_multiset() == old(self).card_multiset(),
            old(self).well_formed() ==> final(self).well_formed(),
    {
        proof {
            lemma_swapped_keeps_cards(self.cards@, i as int, j as int);
        }
        let first = self.cards[i];
        let second = self.cards[j];
        self.cards[i] = second;
        self.cards[j] = first;
    }
}

impl Shufflable for Deck {
    /// A deck holds each of the fifty-two cards once, and its cursor is on one
    /// of them.
    open spec fn well_formed(&self) -> bool {
        is_full_deck(self.cards@) && self.cursor < 52
    }

    /// The cards of the deck, dealt or not.
    open spec fn card_multiset(&self) -> Multiset<Card> {
        self.cards@.to_multiset()
    }

    /// Visits every position once, first to last, and exchanges its card with
    /// the card at a position drawn at random from the whole deck. The cursor
    /// stays where it is. Any deck can be shuffled, whatever it holds.
    fn shuffle(&mut self)
        ensures
            is_shuffle_of(old(self).cards@, final(self).cards@),
            final(self).cards@.len() == old(self).cards@.len(),
            final(self).cursor == old(self).cursor,
    {
        let count = self.cards.len();
        let ghost mut picks: Seq<int> = Seq::empty();
        let mut i: usize = 0;
        while i < count
            invariant
                i <= count,
                count == self.cards@.len(),
                count == old(self).cards@.len(),
                picks.len() == i,
                forall|k: int| 0 <= k < i ==> 0 <= #[trigger] picks[k] < count,
                self.cards@ == shuffled_by(old(self).cards@, picks),
                self.cursor == old(self).cursor,
            decreases count - i,
        {
            let pick = random_index(count);
            self.swap_cards(i, pick);
            proof {
                assert(picks.push(pick as int).drop_last() =~= picks);
                picks = picks.push(pick as int);
            }
            i += 1;
        }
        proof {
            assert(picks_for(picks, old(self).cards@.len() as int));
            lemma_shuffle_keeps_cards(old(self).cards@, self.cards@);
        }
    }
}

impl Dealable for Deck {
    /// Hands out the card under the cursor and moves the cursor one card on.
    /// When the cursor has reached the last card, the deck is reshuffled
    /// first and the cursor goes back to position 0.
    fn deal(&mut self) -> (card: Card)
        ensures
            card_dealt(*old(self), *final(self), card),
    {
        if self.cursor == 51 {
            self.shuffle();
            self.cursor = 0;
        }
        let card = self.cards[self.cursor];
        self.cursor += 1;
        proof {
            assert(self.cards@.contains(card));
            to_multiset_contains(self.cards@, card);
        }
        card
    }
}

/// Several decks dealt from as one. `number_of_decks` is how many there are.
#[derive(Clone, Debug)]
pub struct Decks {
    pub number_of_decks: u8,
    pub decks: Vec<Deck>,
}

/// The cards of all the decks together.
pub open spec fn cards_of_decks(decks: Seq<Deck>) -> Multiset<Card>
    decreases decks.len(),
{
    if decks.len() == 0 {
        Multiset::empty()
    } else {
        cards_of_decks(decks.drop_last()).add(decks.last().cards@.to_multiset())
    }
}

/// Whether every one of the decks is well-formed.
pub open spec fn all_well_formed(decks: Seq<Deck>) -> bool {
    forall|k: int| 0 <= k < decks.len() ==> (#[trigger] decks[k]).well_formed()
}

/// Whether each deck of `after` is a shuffle of the deck at its place in
/// `before`, with its cursor where it was.
pub open spec fn each_shuffled(before: Seq<Deck>, after: Seq<Deck>) -> bool {
    &&& after.len() == before.len()
    &&& forall|k: int|
        0 <= k < before.len() ==> is_shuffle_of(before[k].cards@, (#[trigger] after[k]).cards@)
            && after[k].cursor == before[k].cursor
}

/// Decks that were shuffled each on its own hold the same cards deck by deck.
pub proof fn lemma_each_shuffled_keeps_cards(before: Seq<Deck>, after: Seq<Deck>)
    requires
        each_shuffled(before, after),
    ensures
        same_cards_in_each(after, before),
{
    assert forall|k: int| 0 <= k < after.len() implies (#[trigger] after[k]).cards@.to_multiset()
        == before[k].cards@.to_multiset() by {
        lemma_shuffle_keeps_cards(before[k].cards@, after[k].cards@);
    }
}

/// Whether two rows of decks hold the same cards deck by deck.
pub open spec fn same_cards_in_each(first: Seq<Deck>, second: Seq<Deck>) -> bool {
    &&& first.len() == second.len()
    &&& forall|k: int|
        0 <= k < first.len() ==> (#[trigger] first[k]).cards@.to_multiset()
            == second[k].cards@.to_multiset()
}

/// Decks that hold the same cards deck by deck hold the same cards together.
pub proof fn lemma_same_cards_in_each(first: Seq<Deck>, second: Seq<Deck>)
    requires
        same_cards_in_each(first, second),
    ensures
        cards_of_decks(first) == cards_of_decks(second),
    decreases first.len(),
{
    if first.len() > 0 {
        assert(first.last().cards@.to_multiset() == second.last().cards@.to_multiset()) by {
            assert(first[first.len() - 1].cards@.to_multiset() == second[first.len()
                - 1].cards@.to_multiset());
        }
        assert forall|k: int| 0 <= k < first.drop_last().len() implies (
        #[trigger] first.drop_last()[k]).cards@.to_multiset()
            == second.drop_last()[k].cards@.to_multiset() by {
            assert(first[k].cards@.to_multiset() == second[k].cards@.to_multiset());
        }
        lemma_same_cards_in_each(first.drop_last(), second.drop_last());
    }
}

/// A card of one of the decks is a card of all the decks together.
pub proof fn lemma_card_of_one_deck(decks: Seq<Deck>, k: int, card: Card)
    requires
        0 <= k < decks.len(),
        decks[k].cards@.to_multiset().count(card) > 0,
    ensures
        cards_of_decks(decks).count(card) > 0,
    decreases decks.len(),
{
    broadcast use vstd::multiset::group_multiset_axioms;

    if k < decks.len() - 1 {
        assert(decks.drop_last()[k] == decks[k]);
        lemma_card_of_one_deck(decks.drop_last(), k, card);
    }
}

impl Shufflable for Decks {
    /// There is at least one deck, there are as many as `number_of_decks`
    /// says, and each is well-formed.
    open spec fn well_formed(&self) -> bool {
        &&& self.number_of_decks >= 1
        &&& self.decks@.len() == self.number_of_decks
        &&& all_well_formed(self.decks@)
    }

    /// The cards of all the decks together.
    open spec fn card_multiset(&self) -> Multiset<Card> {
        cards_of_decks(self.decks@)
    }

    /// Shuffles every deck on its own; no card moves from one deck to
    /// another, and every cursor stays.
    fn shuffle(&mut self)
        ensures
            final(self).number_of_decks == old(self).number_of_decks,
            each_shuffled(old(self).decks@, final(self).decks@),
            same_cards_in_each(final(self).decks@, old(self).decks@),
            forall|k: int|
                0 <= k < old(self).decks@.len() ==> (#[trigger] final(self).decks@[k]).cursor
                    == old(self).decks@[k].cursor,
    {
        let count = self.decks.len();
        let mut i: usize = 0;
        while i < count
            invariant
                i <= count,
                count == self.decks@.len(),
                count == old(self).decks@.len(),
                self.number_of_decks == old(self).number_of_decks,
                forall|k: int|
                    0 <= k < i ==> is_shuffle_of(
                        old(self).decks@[k].cards@,
                        (#[trigger] self.decks@[k]).cards@,
                    ),
                forall|k: int|
                    i <= k < count ==> (#[trigger] self.decks@[k]).cards@ == old(
                        self,
                    ).decks@[k].cards@,
                all_well_formed(old(self).decks@) ==> all_well_formed(self.decks@),
                forall|k: int|
                    0 <= k < count ==> (#[trigger] self.decks@[k]).cursor == old(
                        self,
                    ).decks@[k].cursor,
            decreases count - i,
        {
            self.decks[i].shuffle();
            i += 1;
        }
        proof {
            lemma_each_shuffled_keeps_cards(old(self).decks@, self.decks@);
            lemma_same_cards_in_each(self.decks@, old(self).decks@);
        }
    }
}

impl Dealable for Decks {
    /// Deals from one of the decks, drawn at random for each card; the other
    /// decks are left as they are.
    fn deal(&mut self) -> (card: Card)
        ensures
            final(self).number_of_decks == old(self).number_of_decks,
            exists|k: int|
                0 <= k < old(self).decks@.len() && dealt_from(
                    old(self).decks@,
                    final(self).decks@,
                    k,
                    card,
                ),
    {
        let deck_count: usize = self.number_of_decks as usize;
        let pick = random_index(deck_count);
        let card = self.decks[pick].deal();
        proof {
            assert(dealt_from(old(self).decks@, self.decks@, pick as int, card));
            assert(self.decks@[pick as int].cards@.contains(card));
            to_multiset_contains(self.decks@[pick as int].cards@, card);
            lemma_card_of_one_deck(self.decks@, pick as int, card);
            assert(same_cards_in_each(self.decks@, old(self).decks@));
            lemma_same_cards_in_each(self.decks@, old(self).decks@);
        }
        card
    }
}

/// What one deal from deck `k` of several does: that deck deals the card,
/// and every other deck is unchanged.
pub open spec fn dealt_from(before: Seq<Deck>, after: Seq<Deck>, k: int, card: Card) -> bool {
    &&& 0 <= k < before.len()
    &&& after.len() == before.len()
    &&& forall|other: int| 0 <= other < before.len() && other != k ==> after[other] == before[other]
    &&& card_dealt(before[k], after[k], card)
}

impl Decks {
    /// Whether the shoe is well-formed: at least one deck, as many as
    /// `number_of_decks` says, each of them well-formed.
    pub fn is_valid(&self) -> (valid: bool)
        ensures
            valid == self.well_formed(),
    {
        if self.number_of_decks < 1 || self.decks.len() != self.number_of_decks as usize {
            return false;
        }
        let mut i: usize = 0;
        while i < self.decks.len()
            invariant
                i <= self.decks@.len(),
                forall|k: int| 0 <= k < i ==> (#[trigger] self.decks@[k]).well_formed(),
            decreases self.decks@.len() - i,
        {
            if !self.decks[i].is_valid() {
                return false;
            }
            i += 1;
        }
        true
    }
}

impl Default for Decks {
    /// A single freshly shuffled deck.
    fn default() -> (decks: Decks)
        ensures
            decks.well_formed(),
            decks.number_of_decks == 1,
            decks.decks@[0].cursor == 0,
    {
        let mut decks: Vec<Deck> = Vec::new();
        decks.push(Deck::default());
        Decks { number_of_decks: 1, decks }
    }
}

impl Default for Deck {
    /// A freshly shuffled deck.
    fn default() -> (deck: Deck)
        ensures
            deck.well_formed(),
            deck.cursor == 0,
    {
        Deck::new_shuffled()
    }
}

} // verus!
