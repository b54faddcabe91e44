//! The table: what the chips and the buttons do to a session.

use vstd::prelude::*;

use crate::components::{ChipButtonValue, PlayerButtonValues};
use crate::constants::{AppState, GameRoundState, STARTING_BALANCE};
use crate::dealer_systems::spawn_dealer;
use crate::deck::{card_dealt, lemma_opening_cards_are_standard, opening_cards_dealt, Deck};
use crate::hand::{lemma_standard_totals, PlayerHands};
use crate::player_systems::{
    double_down_player_hand, hit_player_hand, spawn_player, stand_player_hand,
};
use crate::round::{GameError, GameSession};

verus! {

/// Sets up the table at the start of a round and opens the betting.
pub fn in_game_setup(session: &mut GameSession) -> (result: Result<GameRoundState, GameError>)
    requires
        old(session).well_formed(),
    ensures
        final(session).well_formed(),
        match result {
            Ok(next) => {
                &&& old(session)@.state is RoundStart
                &&& next is Betting
                &&& final(session)@ == old(session)@.set_up()
            },
            Err(error) => {
                &&& !(old(session)@.state is RoundStart)
                &&& error == GameError::InvalidActionForPhase
                &&& final(session)@ == old(session)@
            },
        },
{
    match session.state {
        GameRoundState::RoundStart => {
            session.state = GameRoundState::Betting;
            Ok(GameRoundState::Betting)
        },
        _ => Err(GameError::InvalidActionForPhase),
    }
}

/// A chip is put on the table: its worth moves from the balance to the
/// stake. This is done only while stakes are placed, and only with a balance
/// that covers the chip.
pub fn chip_button_click_system(session: &mut GameSession, value: ChipButtonValue) -> (result:
    Result<(), GameError>)
    requires
        old(session).well_formed(),
    ensures
        final(session).well_formed(),
        match result {
            Ok(_) => {
                &&& old(session)@.stake_refusal(value.spec_amount() as int) is None
                &&& final(session)@ == old(session)@.staked(value.spec_amount() as int)
            },
            Err(error) => {
                &&& old(session)@.stake_refusal(value.spec_amount() as int) == Some(error)
                &&& final(session)@ == old(session)@
            },
        },
{
    match session.state {
        GameRoundState::Betting => {},
        _ => {
            return Err(GameError::InvalidActionForPhase);
        },
    }
    let amount = value.amount();
    if session.balance.value >= amount {
        session.bet.value = session.bet.value + amount;
        session.balance.value = session.balance.value - amount;
        Ok(())
    } else {
        Err(GameError::InsufficientFunds)
    }
}

/// Deals the opening hands, first the player's two cards, then the dealer's,
/// and begins the player's turn. The player's hand carries the stake. This
/// is done only while stakes are placed and once something is staked.
pub fn deal_opening_hands(session: &mut GameSession) -> (result: Result<GameRoundState, GameError>)
    requires
        old(session).well_formed(),
    ensures
        final(session).well_formed(),
        match result {
            Ok(next) => {
                &&& old(session)@.deal_refusal() is None
                &&& next is PlayerHand
                &&& exists|between: Deck|
                    opening_cards_dealt(old(session).deck, between, final(session)@.player_cards())
                        && opening_cards_dealt(
                        between,
                        final(session).deck,
                        final(session)@.dealer_cards(),
                    )
                &&& final(session)@ == old(session)@.dealt(
                    final(session)@.deck,
                    final(session)@.cursor,
                    final(session)@.player_cards(),
                    final(session)@.dealer_cards(),
                )
            },
            Err(error) => {
                &&& old(session)@.deal_refusal() == Some(error)
                &&& final(session)@ == old(session)@
            },
        },
{
    match session.state {
        GameRoundState::Betting => {},
        _ => {
            return Err(GameError::InvalidActionForPhase);
        },
    }
    if session.bet.value <= 0 {
        return Err(GameError::InvalidActionForPhase);
    }
    let hands = spawn_player(&mut session.deck, &session.bet);
    let ghost between = session.deck;
    let dealer = spawn_dealer(&mut session.deck);
    proof {
        lemma_opening_cards_are_standard(old(session).deck, between, hands@[0].cards);
        lemma_opening_cards_are_standard(between, session.deck, dealer.dealer_hand@);
        lemma_standard_totals(hands@[0].cards);
        assert(hands@ =~= old(session)@.dealt(
            session.deck.cards@,
            session.deck.cursor as int,
            hands@[0].cards,
            dealer.dealer_hand@,
        ).player_hands);
    }
    session.player_hands = hands;
    session.dealer_hand = Some(dealer.dealer_hand);
    session.state = GameRoundState::PlayerHand;
    Ok(GameRoundState::PlayerHand)
}

/// Clears the table for the next round: the hands are taken away, no card
/// lies face up, no result stands, and stakes can be placed again. Balance,
/// stake and deck are left as they are.
pub fn despawn_cards_and_reset(session: &mut GameSession)
    requires
        old(session).well_formed(),
    ensures
        final(session).well_formed(),
        final(session)@ == old(session)@.cleared(),
{
    session.player_hands = PlayerHands(Vec::new());
    session.dealer_hand = None;
    session.dealer_card_revealed = false;
    session.last_result = None;
    session.state = GameRoundState::Betting;
    proof {
        assert(session@.player_hands =~= Seq::empty());
    }
}

/// Tears the session down and begins it again: the starting balance, nothing
/// staked, nothing dealt, the round at its start. The deck is kept.
pub fn reset_game(session: &mut GameSession)
    requires
        old(session).well_formed(),
    ensures
        final(session).well_formed(),
        final(session)@ == old(session)@.reset(),
{
    despawn_cards_and_reset(session);
    session.balance.value = STARTING_BALANCE;
    session.bet.value = 0;
    session.state = GameRoundState::RoundStart;
}

/// Why a button is turned down in a session, if it is.
pub open spec fn button_refusal(session: GameSession, value: PlayerButtonValues) -> Option<
    GameError,
> {
    match value {
        PlayerButtonValues::Hit | PlayerButtonValues::Stand => session@.turn_refusal(),
        PlayerButtonValues::DoubleDown => session@.double_down_refusal(),
        PlayerButtonValues::Deal => session@.deal_refusal(),
        PlayerButtonValues::KeepPlaying => session@.keep_playing_refusal(),
        PlayerButtonValues::Home => None,
    }
}

/// What a button that is not turned down makes of a session.
pub open spec fn button_effect(
    before: GameSession,
    after: GameSession,
    value: PlayerButtonValues,
) -> bool {
    match value {
        PlayerButtonValues::Hit => {
            let card = after@.player_cards().last();
            card_dealt(before.deck, after.deck, card) && after@ == before@.after_hit(
                after@.deck,
                after@.cursor,
                card,
            )
        },
        PlayerButtonValues::Stand => after@ == before@.after_stand(),
        PlayerButtonValues::DoubleDown => {
            let card = after@.player_cards().last();
            card_dealt(before.deck, after.deck, card) && after@ == before@.after_double_down(
                after@.deck,
                after@.cursor,
                card,
            )
        },
        PlayerButtonValues::Deal => {
            &&& exists|between: Deck|
                opening_cards_dealt(before.deck, between, after@.player_cards())
                    && opening_cards_dealt(between, after.deck, after@.dealer_cards())
            &&& after@ == before@.dealt(
                after@.deck,
                after@.cursor,
                after@.player_cards(),
                after@.dealer_cards(),
            )
        },
        PlayerButtonValues::KeepPlaying => after@ == before@.cleared(),
        PlayerButtonValues::Home => after@ == before@.reset(),
    }
}

/// A button is pressed. Each button stands for one action on the session:
/// hit, stand and double down for the three actions of the player's turn,
/// deal for the opening hands, keep playing for clearing the table after a
/// settled round, home for tearing the session down. An action that the
/// phase of the round does not take is turned down and changes nothing. The
/// phase the round is in afterwards is given back.
pub fn player_button_system(session: &mut GameSession, value: PlayerButtonValues) -> (result:
    Result<GameRoundState, GameError>)
    requires
        old(session).well_formed(),
    ensures
        final(session).well_formed(),
        match result {
            Ok(next) => {
                &&& button_refusal(*old(session), value) is None
                &&& button_effect(*old(session), *final(session), value)
                &&& next == final(session)@.state
            },
            Err(error) => {
                &&& button_refusal(*old(session), value) == Some(error)
                &&& final(session)@ == old(session)@
            },
        },
{
    match value {
        PlayerButtonValues::Hit => {
            match hit_player_hand(session) {
                Ok(card) => {
                    assert(session@.player_cards().last() == card);
                    Ok(session.state)
                },
                Err(error) => Err(error),
            }
        },
        PlayerButtonValues::Stand => stand_player_hand(session),
        PlayerButtonValues::DoubleDown => {
            match double_down_player_hand(session) {
                Ok(card) => {
                    assert(session@.player_cards().last() == card);
                    Ok(session.state)
                },
                Err(error) => Err(error),
            }
        },
        PlayerButtonValues::Deal => deal_opening_hands(session),
        PlayerButtonValues::KeepPlaying => {
            match (session.state, session.last_result) {
                (GameRoundState::RoundEnd, Some(_)) => {
                    despawn_cards_and_reset(session);
                    Ok(GameRoundState::Betting)
                },
                _ => Err(GameError::InvalidActionForPhase),
            }
        },
        PlayerButtonValues::Home => {
            reset_game(session);
            Ok(GameRoundState::RoundStart)
        },
    }
}

/// The name of a phase of the round, as it is reported.
pub open spec fn game_state_name(state: GameRoundState) -> Seq<char> {
    match state {
        GameRoundState::RoundStart => "Round Start"@,
        GameRoundState::Betting => "Betting"@,
        GameRoundState::PlayerHand => "Player Hand"@,
        GameRoundState::DealerHand => "Dealer Hand"@,
        GameRoundState::RoundEnd => "Round End"@,
    }
}

/// The name of a screen, as it is reported.
pub open spec fn app_state_name(state: AppState) -> Seq<char> {
    match state {
        AppState::Start => "Start"@,
        AppState::InGame => "In Game"@,
    }
}

/// The name under which a phase of the round is reported.
pub fn track_game_state(game_state: GameRoundState) -> (name: &'static str)
    ensures
        name@ == game_state_name(game_state),
{
    match game_state {
        GameRoundState::RoundStart => "Round Start",
        GameRoundState::Betting => "Betting",
        GameRoundState::PlayerHand => "Player Hand",
        GameRoundState::DealerHand => "Dealer Hand",
        GameRoundState::RoundEnd => "Round End",
    }
}

/// The name under which a screen is reported.
pub fn track_app_state(current_app_state: AppState) -> (name: &'static str)
    ensures
        name@ == app_state_name(current_app_state),
{
    match current_app_state {
        AppState::Start => "Start",
        AppState::InGame => "In Game",
    }
}

} // verus!
