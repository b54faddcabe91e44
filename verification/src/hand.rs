//! Hands and their totals. A total is a pair: every card counted at its low
//! value, and every card counted at its high value. Only an ace has two
//! different values, so the pair stands for "all aces low" and "all aces
//! high"; aces are not chosen one by one.

use vstd::prelude::*;

use crate::card::Card;
use crate::constants::{BUST_THRESHOLD, DEALER_STAND_HIGH, DEALER_STAND_LOW};

verus! {

/// The cards of one player hand and the stake placed on it.
#[derive(Clone, Debug)]
pub struct PlayerHand {
    pub cards: Vec<Card>,
    pub bet: u64,
}

/// All hands a player holds. Play uses the first one only.
#[derive(Clone, Debug)]
pub struct PlayerHands(pub Vec<PlayerHand>);

/// The dealer's cards. The first is the hole card.
#[derive(Clone, Debug)]
pub struct DealerHand {
    pub cards: Vec<Card>,
}

/// A player hand as contracts see it.
pub struct PlayerHandView {
    pub cards: Seq<Card>,
    pub bet: int,
}

impl View for PlayerHand {
    type V = PlayerHandView;

    open spec fn view(&self) -> PlayerHandView {
        PlayerHandView { cards: self.cards@, bet: self.bet as int }
    }
}

impl View for PlayerHands {
    type V = Seq<PlayerHandView>;

    open spec fn view(&self) -> Seq<PlayerHandView> {
        self.0@.map_values(|hand: PlayerHand| hand@)
    }
}

impl View for DealerHand {
    type V = Seq<Card>;

    open spec fn view(&self) -> Seq<Card> {
        self.cards@
    }
}

/// Sum of the low values of the cards.
pub open spec fn low_total(cards: Seq<Card>) -> int
    decreases cards.len(),
{
    if cards.len() == 0 {
        0
    } else {
        low_total(cards.drop_last()) + cards.last().value.0
    }
}

/// Sum of the high values of the cards.
pub open spec fn high_total(cards: Seq<Card>) -> int
    decreases cards.len(),
{
    if cards.len() == 0 {
        0
    } else {
        high_total(cards.drop_last()) + cards.last().value.1
    }
}

/// A hand is bust when it is over the threshold both ways of counting.
pub open spec fn spec_is_bust(cards: Seq<Card>) -> bool {
    low_total(cards) > 21 && high_total(cards) > 21
}

/// The total to show for a hand: the larger of the two totals that is not
/// over the threshold; if both are over, the smaller of the two.
pub open spec fn spec_best_total(cards: Seq<Card>) -> int {
    best_of(low_total(cards), high_total(cards))
}

/// Of two totals, the larger one that is not over the threshold; if both are
/// over, the smaller of the two.
pub open spec fn best_of(low: int, high: int) -> int {
    if low <= 21 && high <= 21 {
        if low <= high {
            high
        } else {
            low
        }
    } else if high <= 21 {
        high
    } else if low <= 21 {
        low
    } else if low <= high {
        low
    } else {
        high
    }
}

/// A total counted no further than one past the threshold: beyond it the
/// exact size decides nothing.
pub open spec fn capped(total: int) -> int {
    if total > 21 {
        22
    } else {
        total
    }
}

/// The dealer draws on a low total under 17 and on a high total under 18.
/// A hand without an ace has one total both ways, so it draws up to 17 and
/// stands from 18. A hand with an ace draws until its low total is 17: an
/// ace with a six, 7 low and 17 high, draws.
pub open spec fn spec_dealer_must_hit(cards: Seq<Card>) -> bool {
    low_total(cards) < 17 || high_total(cards) < 18
}

/// Whether every card carries the points of its rank.
pub open spec fn all_standard(cards: Seq<Card>) -> bool {
    forall|i: int| 0 <= i < cards.len() ==> (#[trigger] cards[i]).is_standard()
}

/// Adding a card adds its two values to the two totals.
pub proof fn lemma_totals_push(cards: Seq<Card>, card: Card)
    ensures
        low_total(cards.push(card)) == low_total(cards) + card.value.0,
        high_total(cards.push(card)) == high_total(cards) + card.value.1,
{
    assert(cards.push(card).drop_last() =~= cards);
}

/// Totals only grow along a hand: the totals of its first `n` cards are
/// between zero and the totals of the whole hand.
pub proof fn lemma_totals_of_prefix(cards: Seq<Card>, n: int)
    requires
        0 <= n <= cards.len(),
    ensures
        0 <= low_total(cards.take(n)) <= low_total(cards),
        0 <= high_total(cards.take(n)) <= high_total(cards),
    decreases cards.len() - n,
{
    if n == cards.len() {
        assert(cards.take(n) =~= cards);
        lemma_totals_bounds(cards);
    } else {
        lemma_totals_of_prefix(cards, n + 1);
        assert(cards.take(n + 1).drop_last() =~= cards.take(n));
        lemma_totals_bounds(cards.take(n));
    }
}

/// Each card counts between 0 and 255 either way.
pub proof fn lemma_totals_bounds(cards: Seq<Card>)
    ensures
        0 <= low_total(cards) <= 255 * cards.len(),
        0 <= high_total(cards) <= 255 * cards.len(),
    decreases cards.len(),
{
    if cards.len() > 0 {
        lemma_totals_bounds(cards.drop_last());
    }
}

/// With cards that carry the points of their rank, every card counts at
/// least 1, at most 10 low and at most 11 high, and never more low than high.
pub proof fn lemma_standard_totals(cards: Seq<Card>)
    requires
        all_standard(cards),
    ensures
        cards.len() <= low_total(cards) <= high_total(cards) <= 11 * cards.len(),
        low_total(cards) <= 10 * cards.len(),
    decreases cards.len(),
{
    if cards.len() > 0 {
        assert(cards.last().is_standard());
        assert forall|i: int| 0 <= i < cards.drop_last().len() implies (
        #[trigger] cards.drop_last()[i]).is_standard() by {
            assert(cards.drop_last()[i] == cards[i]);
        }
        lemma_standard_totals(cards.drop_last());
    }
}

/// Whether every card of a hand carries the points of its rank.
pub fn all_carry_rank_points(cards: &Vec<Card>) -> (standard: bool)
    ensures
        standard == all_standard(cards@),
{
    let mut i: usize = 0;
    while i < cards.len()
        invariant
            i <= cards@.len(),
            forall|k: int| 0 <= k < i ==> (#[trigger] cards@[k]).is_standard(),
        decreases cards@.len() - i,
    {
        if !cards[i].carries_rank_points() {
            return false;
        }
        i += 1;
    }
    true
}

/// The two totals of a hand, low first.
pub fn total(cards: &Vec<Card>) -> (totals: (u32, u32))
    requires
        low_total(cards@) <= u32::MAX,
        high_total(cards@) <= u32::MAX,
    ensures
        totals.0 == low_total(cards@),
        totals.1 == high_total(cards@),
{
    let mut low: u32 = 0;
    let mut high: u32 = 0;
    let mut i: usize = 0;
    while i < cards.len()
        invariant
            i <= cards@.len(),
            low == low_total(cards@.take(i as int)),
            high == high_total(cards@.take(i as int)),
            low_total(cards@) <= u32::MAX,
            high_total(cards@) <= u32::MAX,
        decreases cards@.len() - i,
    {
        let card = cards[i];
        proof {
            assert(cards@.take(i + 1) =~= cards@.take(i as int).push(card));
            lemma_totals_push(cards@.take(i as int), card);
            lemma_totals_of_prefix(cards@, i + 1);
        }
        low = low + card.value.0 as u32;
        high = high + card.value.1 as u32;
        i += 1;
    }
    assert(cards@.take(i as int) =~= cards@);
    (low, high)
}

/// The two totals of a hand, each counted no further than one past the
/// threshold. Any hand has capped totals, however many cards it holds.
pub fn capped_totals(cards: &Vec<Card>) -> (totals: (u32, u32))
    ensures
        totals.0 == capped(low_total(cards@)),
        totals.1 == capped(high_total(cards@)),
{
    let mut low: u32 = 0;
    let mut high: u32 = 0;
    let mut i: usize = 0;
    while i < cards.len()
        invariant
            i <= cards@.len(),
            low == capped(low_total(cards@.take(i as int))),
            high == capped(high_total(cards@.take(i as int))),
        decreases cards@.len() - i,
    {
        let card = cards[i];
        proof {
            assert(cards@.take(i + 1) =~= cards@.take(i as int).push(card));
            lemma_totals_push(cards@.take(i as int), card);
            lemma_totals_bounds(cards@.take(i as int));
        }
        low = add_capped(low, card.value.0);
        high = add_capped(high, card.value.1);
        i += 1;
    }
    assert(cards@.take(i as int) =~= cards@);
    (low, high)
}

/// Adds the points of one card to a capped total.
pub fn add_capped(total: u32, points: u8) -> (sum: u32)
    requires
        total <= 22,
    ensures
        sum == capped(total + points),
{
    if total + points as u32 > BUST_THRESHOLD {
        BUST_THRESHOLD + 1
    } else {
        total + points as u32
    }
}

/// Whether a hand is over the threshold both ways of counting.
pub fn is_bust(cards: &Vec<Card>) -> (bust: bool)
    ensures
        bust == spec_is_bust(cards@),
{
    let (low, high) = capped_totals(cards);
    low > BUST_THRESHOLD && high > BUST_THRESHOLD
}

/// Whether the dealer's rule asks for another card.
pub fn dealer_must_hit(cards: &Vec<Card>) -> (hit: bool)
    ensures
        hit == spec_dealer_must_hit(cards@),
{
    let (low, high) = capped_totals(cards);
    low < DEALER_STAND_LOW || high < DEALER_STAND_HIGH
}

/// The total to show for a hand.
pub fn best_total_for_display(cards: &Vec<Card>) -> (best: u32)
    requires
        low_total(cards@) <= u32::MAX,
        high_total(cards@) <= u32::MAX,
    ensures
        best == spec_best_total(cards@),
{
    let (low, high) = total(cards);
    best_of_totals(low, high)
}

/// Of two totals, the one to show.
pub fn best_of_totals(low: u32, high: u32) -> (best: u32)
    ensures
        best == best_of(low as int, high as int),
{
    if low <= BUST_THRESHOLD && high <= BUST_THRESHOLD {
        if low <= high {
            high
        } else {
            low
        }
    } else if high <= BUST_THRESHOLD {
        high
    } else if low <= BUST_THRESHOLD {
        low
    } else if low <= high {
        low
    } else {
        high
    }
}

} // verus!
