//! The player's side of the table: the opening hand and the three actions of
//! the player's turn.

use vstd::prelude::*;

use crate::card::Card;
use crate::constants::GameRoundState;
use crate::dealer_systems::reveal_dealer_hand;
use crate::deck::{card_dealt, opening_cards_dealt, Deck};
use crate::deck_laws::lemma_full_deck_is_standard;
use crate::hand::{is_bust, lemma_standard_totals, spec_is_bust, PlayerHand, PlayerHands};
use crate::resources::BetValue;
use crate::round::{hand_in_play, lemma_hand_takes_a_card, settle_round, GameError, GameSession};
use crate::traits::{Dealable, Shufflable};

verus! {

/// Makes sure there is a deck to deal from: a deck without cards is replaced
/// by a full one and shuffled; any other deck is left as it is.
pub fn initial_shuffle(deck: &mut Deck)
    ensures
        old(deck).cards@.len() == 0 ==> final(deck).well_formed() && final(deck).cursor
            == 0,
        old(deck).cards@.len() != 0 ==> *final(deck) == *old(deck),
{
    if deck.cards.is_empty() {
        *deck = Deck::default();
        deck.shuffle();
    }
}

/// Deals the player's opening hand: two cards, carrying the stake placed so
/// far.
pub fn spawn_player(deck: &mut Deck, bet: &BetValue) -> (hands: PlayerHands)
    requires
        old(deck).well_formed(),
        0 <= bet.value,
    ensures
        hands@.len() == 1,
        hands@[0].bet == bet.value,
        opening_cards_dealt(*old(deck), *final(deck), hands@[0].cards),
{
    let cards = deck.deal_opening_cards();
    let mut hands: Vec<PlayerHand> = Vec::new();
    hands.push(PlayerHand { cards, bet: bet.value as u64 });
    PlayerHands(hands)
}

/// Whether the player's hand is over the threshold both ways of counting.
pub fn determine_player_bust(player_hand: &PlayerHand) -> (bust: bool)
    ensures
        bust == spec_is_bust(player_hand@.cards),
{
    is_bust(&player_hand.cards)
}

/// The player stands: the turn passes to the dealer.
pub fn stand_player_hand(session: &mut GameSession) -> (result: Result<GameRoundState, GameError>)
    requires
        old(session).well_formed(),
    ensures
        final(session).well_formed(),
        match result {
            Ok(next) => {
                &&& old(session)@.state is PlayerHand
                &&& next is DealerHand
                &&& final(session)@ == old(session)@.after_stand()
            },
            Err(error) => {
                &&& !(old(session)@.state is PlayerHand)
                &&& error == GameError::InvalidActionForPhase
                &&& final(session)@ == old(session)@
            },
        },
{
    match session.state {
        GameRoundState::PlayerHand => {},
        _ => {
            return Err(GameError::InvalidActionForPhase);
        },
    }
    session.state = GameRoundState::DealerHand;
    let _ = reveal_dealer_hand(session);
    Ok(GameRoundState::DealerHand)
}

/// The player hits: one card is dealt to the player's hand. A hand that is
/// then over the threshold ends the round at once: the dealer's first card
/// is turned up and the round is settled as lost, the stake being gone
/// already. Any other hand leaves the player to act again.
pub fn hit_player_hand(session: &mut GameSession) -> (result: Result<Card, GameError>)
    requires
        old(session).well_formed(),
    ensures
        final(session).well_formed(),
        match result {
            Ok(card) => {
                &&& old(session)@.state is PlayerHand
                &&& card_dealt(old(session).deck, final(session).deck, card)
                &&& final(session)@ == old(session)@.after_hit(
                    final(session)@.deck,
                    final(session)@.cursor,
                    card,
                )
            },
            Err(error) => {
                &&& !(old(session)@.state is PlayerHand)
                &&& error == GameError::InvalidActionForPhase
                &&& final(session)@ == old(session)@
            },
        },
{
    match session.state {
        GameRoundState::PlayerHand => {},
        _ => {
            return Err(GameError::InvalidActionForPhase);
        },
    }
    let card = deal_to_player(session);
    assert(session.player_hands.0@.len() == session@.player_hands.len());
    if determine_player_bust(&session.player_hands.0[0]) {
        session.state = GameRoundState::RoundEnd;
        let _ = reveal_dealer_hand(session);
        let _ = settle_round(session);
    }
    Ok(card)
}

/// The player doubles down: as much as is staked is staked again out of the
/// balance, exactly one card is dealt to the player's hand, and the player's
/// turn is over. A hand over the threshold ends the round, settled as lost;
/// any other hand goes to the dealer. A balance that does not cover the stake
/// a second time turns the action down.
pub fn double_down_player_hand(session: &mut GameSession) -> (result: Result<Card, GameError>)
    requires
        old(session).well_formed(),
    ensures
        final(session).well_formed(),
        match result {
            Ok(card) => {
                &&& old(session)@.double_down_refusal() is None
                &&& card_dealt(old(session).deck, final(session).deck, card)
                &&& final(session)@ == old(session)@.after_double_down(
                    final(session)@.deck,
                    final(session)@.cursor,
                    card,
                )
            },
            Err(error) => {
                &&& old(session)@.double_down_refusal() == Some(error)
                &&& final(session)@ == old(session)@
            },
        },
{
    match session.state {
        GameRoundState::PlayerHand => {},
        _ => {
            return Err(GameError::InvalidActionForPhase);
        },
    }
    if session.balance.value < session.bet.value {
        return Err(GameError::InsufficientFunds);
    }
    session.balance.value = session.balance.value - session.bet.value;
    session.bet.value = session.bet.value * 2;
    session.player_hands.0[0].bet = session.bet.value as u64;
    assert(session@.player_hands =~= old(session)@.doubled().player_hands);
    let card = deal_to_player(session);
    assert(session.player_hands.0@.len() == session@.player_hands.len());
    if determine_player_bust(&session.player_hands.0[0]) {
        session.state = GameRoundState::RoundEnd;
        let _ = reveal_dealer_hand(session);
        let _ = settle_round(session);
    } else {
        session.state = GameRoundState::DealerHand;
        let _ = reveal_dealer_hand(session);
    }
    Ok(card)
}

/// Deals one card from the session's deck to the hand the player plays.
fn deal_to_player(session: &mut GameSession) -> (card: Card)
    requires
        old(session).well_formed(),
        old(session)@.state is PlayerHand,
    ensures
        card_dealt(old(session).deck, final(session).deck, card),
        final(session)@ == old(session)@.player_drew(
            final(session)@.deck,
            final(session)@.cursor,
            card,
        ),
        hand_in_play(final(session)@.player_cards()),
{
    let card = session.deck.deal();
    proof {
        lemma_full_deck_is_standard(session.deck.cards@);
        lemma_standard_totals(session@.player_cards());
        lemma_hand_takes_a_card(session@.player_cards(), card);
    }
    session.player_hands.0[0].cards.push(card);
    proof {
        assert(session@.player_hands =~= old(session)@.player_drew(
            session@.deck,
            session@.cursor,
            card,
        ).player_hands);
    }
    card
}

} // verus!
