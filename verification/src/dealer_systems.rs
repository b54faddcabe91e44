//! The dealer's side of the table: the opening hand, the fixed drawing rule,
//! and who wins.

use vstd::prelude::*;

use crate::bundles::DealerBundle;
use crate::card::Card;
use crate::constants::{DeckState, GameRoundState};
use crate::deck::{
    cards_dealt, each_shuffled, lemma_cards_dealt_one_more, opening_cards_dealt,
    same_cards_in_each, Deck, Decks,
};
use crate::deck_laws::lemma_full_deck_is_standard;
use crate::hand::{
    best_of_totals, capped_totals, dealer_must_hit, high_total, is_bust, lemma_standard_totals,
    lemma_totals_push, low_total, spec_best_total, spec_dealer_must_hit, spec_is_bust,
    DealerHand, PlayerHand,
};
use crate::round::{
    drawn_by_dealer_rule, hand_in_play, lemma_hand_takes_a_card, settle_round, GameError,
    GameSession, RoundOutcome, RoundResult,
};
use crate::traits::{Dealable, Shufflable};

verus! {

/// Who wins with these cards. A player who is over the threshold loses even
/// when the dealer is over too; otherwise a dealer over the threshold loses;
/// otherwise the larger total to show wins, and equal totals are a push.
pub open spec fn spec_determine_win(player: Seq<Card>, dealer: Seq<Card>) -> RoundOutcome {
    if spec_is_bust(player) {
        RoundOutcome::PlayerBust
    } else if spec_is_bust(dealer) {
        RoundOutcome::DealerBust
    } else if spec_best_total(player) > spec_best_total(dealer) {
        RoundOutcome::PlayerWins
    } else if spec_best_total(player) < spec_best_total(dealer) {
        RoundOutcome::DealerWins
    } else {
        RoundOutcome::Push
    }
}

/// How far the dealer's rule is from letting the dealer stand: the points
/// missing to 17 on the low total and to 18 on the high total.
pub open spec fn points_to_stand(cards: Seq<Card>) -> int {
    (if low_total(cards) < 17 {
        17 - low_total(cards)
    } else {
        0
    }) + (if high_total(cards) < 18 {
        18 - high_total(cards)
    } else {
        0
    })
}

/// The dealer draws exactly when the rule asks for it. A hand that already
/// has 17 low and 18 high gets no card: a ten with an eight, or an ace, a six
/// and a king, which count 17 with the ace low. A hand that has not gets at
/// least one: an ace with a six, which count 17 only with the ace high.
pub proof fn lemma_dealer_draws_when_asked(hand: Seq<Card>, drawn: Seq<Card>)
    requires
        drawn_by_dealer_rule(hand, drawn),
    ensures
        spec_dealer_must_hit(hand) <==> drawn.len() > 0,
        low_total(hand) >= 17 && high_total(hand) >= 18 ==> drawn.len() == 0,
        low_total(hand) < 17 || high_total(hand) < 18 ==> drawn.len() >= 1,
{
    if drawn.len() > 0 {
        assert(hand + drawn.take(0) =~= hand);
    } else {
        assert(hand + drawn =~= hand);
    }
}

/// Deals the dealer's opening hand, two cards, and sets up the dealer's shoe
/// of two freshly shuffled decks.
pub fn spawn_dealer(deck: &mut Deck) -> (dealer: DealerBundle)
    requires
        old(deck).well_formed(),
    ensures
        opening_cards_dealt(*old(deck), *final(deck), dealer.dealer_hand@),
        dealer.dealer_decks.well_formed(),
        dealer.dealer_decks.number_of_decks == 2,
        dealer.dealer_decks.decks@[0].cursor == 0,
        dealer.dealer_decks.decks@[1].cursor == 0,
{
    let cards = deck.deal_opening_cards();
    let mut decks: Vec<Deck> = Vec::new();
    decks.push(Deck::default());
    decks.push(Deck::default());
    DealerBundle {
        dealer_hand: DealerHand { cards },
        dealer_decks: Decks { number_of_decks: 2, decks },
    }
}

/// Shuffles every deck of the shoe, each on its own, and reports the shoe as
/// shuffled.
pub fn shuffle_dealer_decks(decks: &mut Decks) -> (state: DeckState)
    ensures
        state is Shuffled,
        each_shuffled(old(decks).decks@, final(decks).decks@),
        same_cards_in_each(final(decks).decks@, old(decks).decks@),
        final(decks).card_multiset() == old(decks).card_multiset(),
        final(decks).number_of_decks == old(decks).number_of_decks,
        forall|k: int|
            0 <= k < old(decks).decks@.len() ==> (#[trigger] final(decks).decks@[k]).cursor
                == old(decks).decks@[k].cursor,
        old(decks).well_formed() ==> final(decks).well_formed(),
{
    decks.shuffle();
    DeckState::Shuffled
}

/// Plays the dealer's hand by the fixed rule and ends the round. The dealer
/// draws while the low total is under 17 or the high total under 18, and not
/// once more. Then the round ends and is settled.
pub fn play_dealer_hand(session: &mut GameSession) -> (result: Result<RoundResult, GameError>)
    requires
        old(session).well_formed(),
        old(session)@.state is DealerHand ==> old(session)@.balance + 2 * old(session)@.bet
            <= i64::MAX,
    ensures
        final(session).well_formed(),
        match result {
            Ok(settlement) => {
                let drawn = final(session)@.dealer_cards().skip(
                    old(session)@.dealer_cards().len() as int,
                );
                &&& old(session)@.state is DealerHand
                &&& cards_dealt(old(session).deck, final(session).deck, drawn)
                &&& drawn_by_dealer_rule(old(session)@.dealer_cards(), drawn)
                &&& final(session)@ == old(session)@.after_dealer_play(
                    final(session)@.deck,
                    final(session)@.cursor,
                    drawn,
                )
                &&& final(session)@.last_result == Some(settlement)
            },
            Err(error) => {
                &&& !(old(session)@.state is DealerHand)
                &&& error == GameError::InvalidActionForPhase
                &&& final(session)@ == old(session)@
            },
        },
{
    match session.state {
        GameRoundState::DealerHand => {},
        _ => {
            return Err(GameError::InvalidActionForPhase);
        },
    }
    let mut hand = session.dealer_hand.take().unwrap();
    let ghost opening = hand.cards@;
    let ghost mut drawn: Seq<Card> = Seq::empty();
    proof {
        assert(opening + drawn =~= opening);
    }
    while dealer_must_hit(&hand.cards)
        invariant
            old(session).deck.well_formed(),
            session.deck.well_formed(),
            cards_dealt(old(session).deck, session.deck, drawn),
            hand.cards@ == opening + drawn,
            hand_in_play(hand.cards@),
            forall|k: int|
                0 <= k < drawn.len() ==> spec_dealer_must_hit(opening + #[trigger] drawn.take(k)),
            session.balance == old(session).balance,
            session.bet == old(session).bet,
            session.player_hands == old(session).player_hands,
            session.state == old(session).state,
            session.dealer_card_revealed == old(session).dealer_card_revealed,
            session.last_result == old(session).last_result,
        decreases points_to_stand(hand.cards@),
    {
        let ghost before = session.deck;
        let card = session.deck.deal();
        proof {
            lemma_full_deck_is_standard(session.deck.cards@);
            lemma_standard_totals(hand.cards@);
            lemma_hand_takes_a_card(hand.cards@, card);
            lemma_totals_push(hand.cards@, card);
            lemma_cards_dealt_one_more(old(session).deck, before, session.deck, drawn, card);
            assert forall|k: int| 0 <= k < drawn.push(card).len() implies spec_dealer_must_hit(
                opening + #[trigger] drawn.push(card).take(k),
            ) by {
                if k < drawn.len() {
                    assert(drawn.push(card).take(k) =~= drawn.take(k));
                } else {
                    assert(drawn.push(card).take(k) =~= drawn);
                }
            }
            assert(opening + drawn.push(card) =~= (opening + drawn).push(card));
            drawn = drawn.push(card);
        }
        hand.cards.push(card);
    }
    proof {
        assert((opening + drawn).skip(opening.len() as int) =~= drawn);
    }
    session.dealer_hand = Some(hand);
    session.state = GameRoundState::RoundEnd;
    settle_round(session)
}

/// Turns the dealer's first card face up and gives it. This is done when the
/// player's turn ends; doing it again changes nothing. While the player's
/// turn lasts the card stays face down, and before the cards are dealt there
/// is no card to turn.
pub fn reveal_dealer_hand(session: &mut GameSession) -> (result: Result<Card, GameError>)
    requires
        old(session).well_formed(),
    ensures
        final(session).well_formed(),
        match result {
            Ok(card) => {
                &&& old(session)@.state is DealerHand || old(session)@.state is RoundEnd
                &&& card == old(session)@.dealer_cards()[0]
                &&& final(session)@ == old(session)@.turn_ended(old(session)@.state)
            },
            Err(error) => {
                &&& final(session)@ == old(session)@
                &&& error == if old(session)@.state is PlayerHand {
                    GameError::InvalidActionForPhase
                } else {
                    GameError::EmptyHandQuery
                }
                &&& !(old(session)@.state is DealerHand || old(session)@.state is RoundEnd)
            },
        },
{
    match session.state {
        GameRoundState::PlayerHand => {
            return Err(GameError::InvalidActionForPhase);
        },
        GameRoundState::RoundStart | GameRoundState::Betting => {
            return Err(GameError::EmptyHandQuery);
        },
        _ => {},
    }
    let card = session.dealer_hand.as_ref().unwrap().cards[0];
    session.dealer_card_revealed = true;
    Ok(card)
}

/// Whether the dealer's hand is over the threshold both ways of counting.
pub fn determine_dealer_bust(dealer_hand: &DealerHand) -> (bust: bool)
    ensures
        bust == spec_is_bust(dealer_hand.cards@),
{
    is_bust(&dealer_hand.cards)
}

/// Decides the round between the player's hand and the dealer's.
pub fn determine_win(player_hand: &PlayerHand, dealer_hand: &DealerHand) -> (outcome: RoundOutcome)
    ensures
        outcome == spec_determine_win(player_hand.cards@, dealer_hand.cards@),
{
    let (player_low, player_high) = capped_totals(&player_hand.cards);
    let (dealer_low, dealer_high) = capped_totals(&dealer_hand.cards);
    if player_low > 21 && player_high > 21 {
        RoundOutcome::PlayerBust
    } else if dealer_low > 21 && dealer_high > 21 {
        RoundOutcome::DealerBust
    } else {
        // Neither hand is over both ways, so capping has not changed the
        // total that either of them shows.
        let player_total = best_of_totals(player_low, player_high);
        let dealer_total = best_of_totals(dealer_low, dealer_high);
        if player_total > dealer_total {
            RoundOutcome::PlayerWins
        } else if player_total < dealer_total {
            RoundOutcome::DealerWins
        } else {
            RoundOutcome::Push
        }
    }
}

} // verus!
