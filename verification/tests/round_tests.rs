use blackjack::card::{Card, Rank, Suit};
use blackjack::components::{ChipButtonValue, PlayerButtonValues};
use blackjack::constants::{AppState, GameRoundState, STARTING_BALANCE};
use blackjack::dealer_systems::{play_dealer_hand, reveal_dealer_hand, spawn_dealer};
use blackjack::deck::Deck;
use blackjack::in_game_systems::{
    chip_button_click_system, deal_opening_hands, despawn_cards_and_reset, in_game_setup,
    player_button_system, reset_game, track_app_state, track_game_state,
};
use blackjack::player_systems::{
    double_down_player_hand, hit_player_hand, spawn_player, stand_player_hand,
};
use blackjack::resources::{BalanceValue, BetValue};
use blackjack::round::{settle_round, GameError, GameSession, RoundOutcome, RoundResult};
use blackjack::start_game_systems::start_game;

fn card(rank: Rank, suit: Suit) -> Card {
    Card::new(rank, suit)
}

/// A full deck whose next cards to be dealt are `next`, in that order. The
/// cursor is past the first card, so that an opening hand is dealt without a
/// shuffle.
fn deck_dealing(next: &[Card]) -> Deck {
    let mut deck = Deck::unshuffled();
    for (k, wanted) in next.iter().enumerate() {
        let at = deck.cards.iter().position(|held| held == wanted).unwrap();
        assert!(at >= 1 + k || at < 1);
        deck.swap_cards(1 + k, at);
    }
    deck.cursor = 1;
    deck
}

/// A session at the table with `bet` staked in chips of fifty and ten and
/// the opening hands dealt from `next`.
fn session_dealt(next: &[Card], fifties: usize, tens: usize) -> GameSession {
    let mut session = GameSession::new();
    session.deck = deck_dealing(next);
    assert_eq!(in_game_setup(&mut session), Ok(GameRoundState::Betting));
    for _ in 0..fifties {
        assert_eq!(chip_button_click_system(&mut session, ChipButtonValue::Fifty), Ok(()));
    }
    for _ in 0..tens {
        assert_eq!(chip_button_click_system(&mut session, ChipButtonValue::Ten), Ok(()));
    }
    assert_eq!(deal_opening_hands(&mut session), Ok(GameRoundState::PlayerHand));
    session
}

#[test]
fn new_session_starts_with_the_starting_balance() {
    let session = GameSession::new();
    assert_eq!(STARTING_BALANCE, 1000);
    assert_eq!(session.balance.value, 1000);
    assert_eq!(session.bet.value, 0);
    assert_eq!(session.state, GameRoundState::RoundStart);
    assert!(session.player_hands.0.is_empty());
    assert!(session.dealer_hand.is_none());
    assert!(session.last_result.is_none());
    assert!(!session.dealer_card_revealed);
    assert_eq!(session.deck.cards.len(), 52);
    assert!(!session.deal_available());
}

#[test]
fn chips_are_worth_1_5_10_and_50() {
    assert_eq!(ChipButtonValue::One.amount(), 1);
    assert_eq!(ChipButtonValue::Five.amount(), 5);
    assert_eq!(ChipButtonValue::Ten.amount(), 10);
    assert_eq!(ChipButtonValue::Fifty.amount(), 50);
}

#[test]
fn a_chip_moves_its_worth_from_balance_to_stake() {
    let mut session = GameSession::new();
    in_game_setup(&mut session).unwrap();
    assert!(!session.deal_available());
    assert_eq!(chip_button_click_system(&mut session, ChipButtonValue::Fifty), Ok(()));
    assert_eq!((session.balance.value, session.bet.value), (950, 50));
    assert!(session.deal_available());
    assert_eq!(chip_button_click_system(&mut session, ChipButtonValue::One), Ok(()));
    assert_eq!(chip_button_click_system(&mut session, ChipButtonValue::Five), Ok(()));
    assert_eq!(chip_button_click_system(&mut session, ChipButtonValue::Ten), Ok(()));
    assert_eq!((session.balance.value, session.bet.value), (934, 66));
    assert_eq!(session.state, GameRoundState::Betting);
}

#[test]
fn a_chip_over_the_balance_is_turned_down() {
    let mut session = GameSession::new();
    session.balance.value = 10;
    in_game_setup(&mut session).unwrap();
    assert_eq!(
        chip_button_click_system(&mut session, ChipButtonValue::Fifty),
        Err(GameError::InsufficientFunds)
    );
    assert_eq!((session.balance.value, session.bet.value), (10, 0));
    assert_eq!(chip_button_click_system(&mut session, ChipButtonValue::Ten), Ok(()));
    assert_eq!((session.balance.value, session.bet.value), (0, 10));
    assert_eq!(
        chip_button_click_system(&mut session, ChipButtonValue::One),
        Err(GameError::InsufficientFunds)
    );
    assert_eq!((session.balance.value, session.bet.value), (0, 10));
}

#[test]
fn chips_are_taken_only_while_betting() {
    let mut session = GameSession::new();
    assert_eq!(
        chip_button_click_system(&mut session, ChipButtonValue::One),
        Err(GameError::InvalidActionForPhase)
    );
    assert_eq!((session.balance.value, session.bet.value), (1000, 0));
    let mut session = session_dealt(&[], 1, 0);
    assert_eq!(
        chip_button_click_system(&mut session, ChipButtonValue::One),
        Err(GameError::InvalidActionForPhase)
    );
    assert_eq!((session.balance.value, session.bet.value), (950, 50));
}

#[test]
fn setup_opens_the_betting_once() {
    let mut session = GameSession::new();
    assert_eq!(in_game_setup(&mut session), Ok(GameRoundState::Betting));
    assert_eq!(session.state, GameRoundState::Betting);
    assert_eq!(in_game_setup(&mut session), Err(GameError::InvalidActionForPhase));
    assert_eq!(session.state, GameRoundState::Betting);
}

#[test]
fn dealing_needs_a_stake() {
    let mut session = GameSession::new();
    assert_eq!(deal_opening_hands(&mut session), Err(GameError::InvalidActionForPhase));
    in_game_setup(&mut session).unwrap();
    assert_eq!(deal_opening_hands(&mut session), Err(GameError::InvalidActionForPhase));
    assert_eq!(
        player_button_system(&mut session, PlayerButtonValues::Deal),
        Err(GameError::InvalidActionForPhase)
    );
    assert_eq!(session.state, GameRoundState::Betting);
    assert!(session.player_hands.0.is_empty());
    chip_button_click_system(&mut session, ChipButtonValue::Five).unwrap();
    assert_eq!(
        player_button_system(&mut session, PlayerButtonValues::Deal),
        Ok(GameRoundState::PlayerHand)
    );
}

#[test]
fn dealing_gives_two_cards_each_player_first() {
    let next = [
        card(Rank::Seven, Suit::Spades),
        card(Rank::Eight, Suit::Spades),
        card(Rank::King, Suit::Spades),
        card(Rank::Five, Suit::Clubs),
    ];
    let session = session_dealt(&next, 1, 0);
    assert_eq!(session.state, GameRoundState::PlayerHand);
    assert_eq!(session.player_hands.0.len(), 1);
    assert_eq!(session.player_hands.0[0].cards, next[0..2].to_vec());
    assert_eq!(session.player_hands.0[0].bet, 50);
    assert_eq!(session.dealer_hand.as_ref().unwrap().cards, next[2..4].to_vec());
    assert_eq!(session.deck.cursor, 5);
    assert_eq!((session.balance.value, session.bet.value), (950, 50));
    assert!(!session.dealer_card_revealed);
    assert!(!session.dealer_card_face_up(0));
    assert!(session.dealer_card_face_up(1));
    assert_eq!(session.player_hand().unwrap().cards, next[0..2].to_vec());
    assert_eq!(session.dealer().unwrap().cards, next[2..4].to_vec());
}

#[test]
fn hands_are_missing_before_the_deal() {
    let mut session = GameSession::new();
    assert_eq!(session.player_hand().err(), Some(GameError::EmptyHandQuery));
    assert_eq!(session.dealer().err(), Some(GameError::EmptyHandQuery));
    assert_eq!(reveal_dealer_hand(&mut session), Err(GameError::EmptyHandQuery));
    in_game_setup(&mut session).unwrap();
    assert_eq!(session.player_hand().err(), Some(GameError::EmptyHandQuery));
    assert_eq!(reveal_dealer_hand(&mut session), Err(GameError::EmptyHandQuery));
    assert!(!session.dealer_card_revealed);
}

#[test]
fn player_bust_ends_the_round_and_forfeits_the_stake() {
    let next = [
        card(Rank::Seven, Suit::Spades),
        card(Rank::Eight, Suit::Spades),
        card(Rank::King, Suit::Spades),
        card(Rank::Five, Suit::Clubs),
        card(Rank::Ten, Suit::Diamonds),
    ];
    let mut session = session_dealt(&next, 1, 0);
    assert_eq!(session.balance.value, 950);
    assert_eq!(hit_player_hand(&mut session), Ok(card(Rank::Ten, Suit::Diamonds)));
    assert_eq!(session.player_hands.0[0].cards.len(), 3);
    assert_eq!(blackjack::hand::total(&session.player_hands.0[0].cards), (25, 25));
    assert_eq!(session.state, GameRoundState::RoundEnd);
    assert_eq!(session.balance.value, 950);
    assert_eq!(session.bet.value, 0);
    assert!(session.dealer_card_revealed);
    assert_eq!(
        session.last_result,
        Some(RoundResult { outcome: RoundOutcome::PlayerBust, bet: 50, payout: 0 })
    );
    assert_eq!(session.dealer_hand.as_ref().unwrap().cards.len(), 2);
}

#[test]
fn a_hit_that_does_not_bust_leaves_the_turn_with_the_player() {
    let next = [
        card(Rank::Two, Suit::Spades),
        card(Rank::Three, Suit::Spades),
        card(Rank::King, Suit::Spades),
        card(Rank::Five, Suit::Clubs),
        card(Rank::Four, Suit::Diamonds),
        card(Rank::Ace, Suit::Diamonds),
    ];
    let mut session = session_dealt(&next, 1, 0);
    assert_eq!(hit_player_hand(&mut session), Ok(card(Rank::Four, Suit::Diamonds)));
    assert_eq!(session.state, GameRoundState::PlayerHand);
    assert_eq!(
        player_button_system(&mut session, PlayerButtonValues::Hit),
        Ok(GameRoundState::PlayerHand)
    );
    assert_eq!(session.player_hands.0[0].cards.len(), 4);
    assert_eq!(session.player_hands.0[0].cards[3], card(Rank::Ace, Suit::Diamonds));
    assert_eq!((session.balance.value, session.bet.value), (950, 50));
    assert!(!session.dealer_card_revealed);
    assert!(session.last_result.is_none());
}

#[test]
fn dealer_bust_pays_twice_the_stake() {
    let next = [
        card(Rank::King, Suit::Spades),
        card(Rank::Queen, Suit::Spades),
        card(Rank::Ten, Suit::Clubs),
        card(Rank::Six, Suit::Clubs),
        card(Rank::Nine, Suit::Diamonds),
    ];
    let mut session = session_dealt(&next, 1, 0);
    assert_eq!(stand_player_hand(&mut session), Ok(GameRoundState::DealerHand));
    assert_eq!(session.state, GameRoundState::DealerHand);
    assert!(session.dealer_card_revealed);
    assert_eq!((session.balance.value, session.bet.value), (950, 50));
    let result = play_dealer_hand(&mut session);
    assert_eq!(result, Ok(RoundResult { outcome: RoundOutcome::DealerBust, bet: 50, payout: 100 }));
    assert_eq!(session.dealer_hand.as_ref().unwrap().cards.len(), 3);
    assert_eq!(session.state, GameRoundState::RoundEnd);
    assert_eq!(session.balance.value, 1050);
    assert_eq!(session.bet.value, 0);
    assert_eq!(session.last_result, result.ok());
}

#[test]
fn double_down_doubles_the_stake_and_deals_one_card() {
    let next = [
        card(Rank::Five, Suit::Spades),
        card(Rank::Six, Suit::Spades),
        card(Rank::Ten, Suit::Clubs),
        card(Rank::Eight, Suit::Clubs),
        card(Rank::Ten, Suit::Diamonds),
    ];
    let mut session = session_dealt(&next, 1, 0);
    assert_eq!((session.balance.value, session.bet.value), (950, 50));
    assert_eq!(double_down_player_hand(&mut session), Ok(card(Rank::Ten, Suit::Diamonds)));
    assert_eq!((session.balance.value, session.bet.value), (900, 100));
    assert_eq!(session.player_hands.0[0].cards.len(), 3);
    assert_eq!(session.player_hands.0[0].bet, 100);
    assert_eq!(session.state, GameRoundState::DealerHand);
    assert!(session.dealer_card_revealed);
    assert_eq!(hit_player_hand(&mut session), Err(GameError::InvalidActionForPhase));
    // The dealer stands on 18; the player's 21 wins twice the doubled stake.
    let result = play_dealer_hand(&mut session).unwrap();
    assert_eq!(result, RoundResult { outcome: RoundOutcome::PlayerWins, bet: 100, payout: 200 });
    assert_eq!(session.dealer_hand.as_ref().unwrap().cards.len(), 2);
    assert_eq!((session.balance.value, session.bet.value), (1100, 0));
}

#[test]
fn double_down_into_a_bust_ends_the_round() {
    let next = [
        card(Rank::Seven, Suit::Spades),
        card(Rank::Eight, Suit::Spades),
        card(Rank::Ten, Suit::Clubs),
        card(Rank::Seven, Suit::Clubs),
        card(Rank::Ten, Suit::Diamonds),
    ];
    let mut session = session_dealt(&next, 1, 0);
    assert_eq!(
        player_button_system(&mut session, PlayerButtonValues::DoubleDown),
        Ok(GameRoundState::RoundEnd)
    );
    assert_eq!(session.player_hands.0[0].cards.len(), 3);
    assert_eq!((session.balance.value, session.bet.value), (900, 0));
    assert_eq!(
        session.last_result,
        Some(RoundResult { outcome: RoundOutcome::PlayerBust, bet: 100, payout: 0 })
    );
    assert!(session.dealer_card_revealed);
}

#[test]
fn double_down_needs_the_stake_a_second_time() {
    let mut session = GameSession::new();
    session.balance.value = 90;
    session.deck = deck_dealing(&[]);
    in_game_setup(&mut session).unwrap();
    chip_button_click_system(&mut session, ChipButtonValue::Fifty).unwrap();
    deal_opening_hands(&mut session).unwrap();
    assert_eq!((session.balance.value, session.bet.value), (40, 50));
    assert_eq!(double_down_player_hand(&mut session), Err(GameError::InsufficientFunds));
    assert_eq!((session.balance.value, session.bet.value), (40, 50));
    assert_eq!(session.player_hands.0[0].cards.len(), 2);
    assert_eq!(session.state, GameRoundState::PlayerHand);
}

#[test]
fn dealer_draws_on_hard_17_because_of_the_high_total() {
    let next = [
        card(Rank::King, Suit::Spades),
        card(Rank::Nine, Suit::Spades),
        card(Rank::Ten, Suit::Clubs),
        card(Rank::Seven, Suit::Clubs),
        card(Rank::Two, Suit::Diamonds),
    ];
    let mut session = session_dealt(&next, 0, 1);
    stand_player_hand(&mut session).unwrap();
    let result = play_dealer_hand(&mut session).unwrap();
    // 17 high is under 18, so one card is drawn; 19 then stands.
    assert_eq!(session.dealer_hand.as_ref().unwrap().cards, next[2..5].to_vec());
    assert_eq!(result, RoundResult { outcome: RoundOutcome::Push, bet: 10, payout: 10 });
}

#[test]
fn dealer_stands_on_17_low_with_an_ace_without_a_draw() {
    let next = [
        card(Rank::King, Suit::Spades),
        card(Rank::Nine, Suit::Spades),
        card(Rank::Ace, Suit::Clubs),
        card(Rank::Six, Suit::Clubs),
    ];
    let mut session = session_dealt(&next, 0, 1);
    stand_player_hand(&mut session).unwrap();
    // The hand is fixed at ace, six and king: 17 low, 27 high.
    session.dealer_hand.as_mut().unwrap().cards.push(card(Rank::King, Suit::Clubs));
    let cursor = session.deck.cursor;
    let result = play_dealer_hand(&mut session).unwrap();
    assert_eq!(session.dealer_hand.as_ref().unwrap().cards.len(), 3);
    assert_eq!(session.deck.cursor, cursor);
    assert_eq!(result, RoundResult { outcome: RoundOutcome::PlayerWins, bet: 10, payout: 20 });
}

#[test]
fn dealer_stands_on_hard_18_without_a_draw() {
    let next = [
        card(Rank::King, Suit::Spades),
        card(Rank::Nine, Suit::Spades),
        card(Rank::Ten, Suit::Clubs),
        card(Rank::Eight, Suit::Clubs),
        card(Rank::Two, Suit::Diamonds),
    ];
    let mut session = session_dealt(&next, 0, 1);
    stand_player_hand(&mut session).unwrap();
    let cursor = session.deck.cursor;
    let result = play_dealer_hand(&mut session).unwrap();
    assert_eq!(session.dealer_hand.as_ref().unwrap().cards, next[2..4].to_vec());
    assert_eq!(session.deck.cursor, cursor);
    assert_eq!(result, RoundResult { outcome: RoundOutcome::PlayerWins, bet: 10, payout: 20 });
    assert_eq!(session.balance.value, 1010);
}

#[test]
fn dealer_draws_on_soft_17() {
    let next = [
        card(Rank::King, Suit::Spades),
        card(Rank::Nine, Suit::Spades),
        card(Rank::Ace, Suit::Clubs),
        card(Rank::Six, Suit::Clubs),
        card(Rank::Two, Suit::Diamonds),
        card(Rank::Nine, Suit::Diamonds),
    ];
    let mut session = session_dealt(&next, 0, 1);
    stand_player_hand(&mut session).unwrap();
    let result = play_dealer_hand(&mut session).unwrap();
    // Ace, six and two make 9 or 19: the low total is still under 17, so the
    // nine is drawn as well, for 18 or 28.
    assert_eq!(session.dealer_hand.as_ref().unwrap().cards, next[2..6].to_vec());
    assert_eq!(session.deck.cursor, 7);
    assert_eq!(result, RoundResult { outcome: RoundOutcome::PlayerWins, bet: 10, payout: 20 });
}

#[test]
fn a_push_gives_the_stake_back() {
    let next = [
        card(Rank::King, Suit::Spades),
        card(Rank::Nine, Suit::Spades),
        card(Rank::Ten, Suit::Clubs),
        card(Rank::Nine, Suit::Clubs),
    ];
    let mut session = session_dealt(&next, 1, 0);
    stand_player_hand(&mut session).unwrap();
    let result = play_dealer_hand(&mut session).unwrap();
    assert_eq!(result, RoundResult { outcome: RoundOutcome::Push, bet: 50, payout: 50 });
    assert_eq!((session.balance.value, session.bet.value), (1000, 0));
}

#[test]
fn a_larger_dealer_total_takes_the_stake() {
    let next = [
        card(Rank::King, Suit::Spades),
        card(Rank::Eight, Suit::Spades),
        card(Rank::Ten, Suit::Clubs),
        card(Rank::Nine, Suit::Clubs),
    ];
    let mut session = session_dealt(&next, 1, 0);
    assert_eq!(
        player_button_system(&mut session, PlayerButtonValues::Stand),
        Ok(GameRoundState::DealerHand)
    );
    let result = play_dealer_hand(&mut session).unwrap();
    assert_eq!(result, RoundResult { outcome: RoundOutcome::DealerWins, bet: 50, payout: 0 });
    assert_eq!((session.balance.value, session.bet.value), (950, 0));
}

#[test]
fn settlement_is_applied_once() {
    let next = [
        card(Rank::King, Suit::Spades),
        card(Rank::Queen, Suit::Spades),
        card(Rank::Ten, Suit::Clubs),
        card(Rank::Six, Suit::Clubs),
        card(Rank::Nine, Suit::Diamonds),
    ];
    let mut session = session_dealt(&next, 1, 0);
    stand_player_hand(&mut session).unwrap();
    let first = play_dealer_hand(&mut session).unwrap();
    assert_eq!(session.balance.value, 1050);
    assert_eq!(settle_round(&mut session), Ok(first));
    assert_eq!(settle_round(&mut session), Ok(first));
    assert_eq!((session.balance.value, session.bet.value), (1050, 0));
    assert_eq!(play_dealer_hand(&mut session), Err(GameError::InvalidActionForPhase));
    assert_eq!((session.balance.value, session.bet.value), (1050, 0));
    assert_eq!(session.last_result, Some(first));
}

#[test]
fn settlement_of_a_round_that_awaits_it() {
    let next = [
        card(Rank::King, Suit::Spades),
        card(Rank::Queen, Suit::Spades),
        card(Rank::Ten, Suit::Clubs),
        card(Rank::Nine, Suit::Clubs),
    ];
    let mut session = session_dealt(&next, 1, 0);
    assert_eq!(settle_round(&mut session), Err(GameError::InvalidActionForPhase));
    assert_eq!((session.balance.value, session.bet.value), (950, 50));
    session.state = GameRoundState::RoundEnd;
    let expected = RoundResult { outcome: RoundOutcome::PlayerWins, bet: 50, payout: 100 };
    assert_eq!(settle_round(&mut session), Ok(expected));
    assert_eq!((session.balance.value, session.bet.value), (1050, 0));
    assert_eq!(settle_round(&mut session), Ok(expected));
    assert_eq!((session.balance.value, session.bet.value), (1050, 0));
}

#[test]
fn actions_outside_their_phase_change_nothing() {
    let mut session = GameSession::new();
    assert_eq!(hit_player_hand(&mut session), Err(GameError::InvalidActionForPhase));
    assert_eq!(stand_player_hand(&mut session), Err(GameError::InvalidActionForPhase));
    assert_eq!(double_down_player_hand(&mut session), Err(GameError::InvalidActionForPhase));
    assert_eq!(play_dealer_hand(&mut session), Err(GameError::InvalidActionForPhase));
    assert_eq!(settle_round(&mut session), Err(GameError::InvalidActionForPhase));
    assert_eq!(
        player_button_system(&mut session, PlayerButtonValues::KeepPlaying),
        Err(GameError::InvalidActionForPhase)
    );
    assert_eq!(session.state, GameRoundState::RoundStart);
    assert_eq!((session.balance.value, session.bet.value), (1000, 0));
    assert_eq!(session.deck.cursor, 0);

    let mut session = session_dealt(&[], 1, 0);
    assert_eq!(reveal_dealer_hand(&mut session), Err(GameError::InvalidActionForPhase));
    assert!(!session.dealer_card_revealed);
    assert_eq!(play_dealer_hand(&mut session), Err(GameError::InvalidActionForPhase));
    assert_eq!(in_game_setup(&mut session), Err(GameError::InvalidActionForPhase));
    assert_eq!(deal_opening_hands(&mut session), Err(GameError::InvalidActionForPhase));
    assert_eq!(session.state, GameRoundState::PlayerHand);
    assert_eq!(session.player_hands.0[0].cards.len(), 2);
}

#[test]
fn the_hole_card_is_turned_up_when_the_turn_ends() {
    let next = [
        card(Rank::King, Suit::Spades),
        card(Rank::Queen, Suit::Spades),
        card(Rank::Four, Suit::Clubs),
        card(Rank::Nine, Suit::Clubs),
    ];
    let mut session = session_dealt(&next, 1, 0);
    assert!(!session.dealer_card_face_up(0));
    stand_player_hand(&mut session).unwrap();
    assert!(session.dealer_card_face_up(0));
    assert_eq!(reveal_dealer_hand(&mut session), Ok(card(Rank::Four, Suit::Clubs)));
    assert!(session.dealer_card_revealed);
}

#[test]
fn keep_playing_clears_the_table_for_the_next_round() {
    let next = [
        card(Rank::King, Suit::Spades),
        card(Rank::Queen, Suit::Spades),
        card(Rank::Ten, Suit::Clubs),
        card(Rank::Nine, Suit::Clubs),
    ];
    let mut session = session_dealt(&next, 1, 0);
    assert_eq!(
        player_button_system(&mut session, PlayerButtonValues::KeepPlaying),
        Err(GameError::InvalidActionForPhase)
    );
    stand_player_hand(&mut session).unwrap();
    play_dealer_hand(&mut session).unwrap();
    assert_eq!(session.balance.value, 1050);
    let cursor = session.deck.cursor;
    assert_eq!(
        player_button_system(&mut session, PlayerButtonValues::KeepPlaying),
        Ok(GameRoundState::Betting)
    );
    assert_eq!(session.state, GameRoundState::Betting);
    assert!(session.player_hands.0.is_empty());
    assert!(session.dealer_hand.is_none());
    assert!(session.last_result.is_none());
    assert!(!session.dealer_card_revealed);
    assert_eq!((session.balance.value, session.bet.value), (1050, 0));
    assert_eq!(session.deck.cursor, cursor);
    // The next round is played from the same deck.
    chip_button_click_system(&mut session, ChipButtonValue::Ten).unwrap();
    assert_eq!(deal_opening_hands(&mut session), Ok(GameRoundState::PlayerHand));
    assert_eq!(session.deck.cursor, cursor + 4);
    assert_eq!(session.player_hands.0[0].bet, 10);
}

#[test]
fn home_tears_the_session_down() {
    let mut session = session_dealt(&[], 1, 1);
    let cursor = session.deck.cursor;
    assert_eq!(
        player_button_system(&mut session, PlayerButtonValues::Home),
        Ok(GameRoundState::RoundStart)
    );
    assert_eq!(session.state, GameRoundState::RoundStart);
    assert_eq!((session.balance.value, session.bet.value), (1000, 0));
    assert!(session.player_hands.0.is_empty());
    assert!(session.dealer_hand.is_none());
    assert!(session.last_result.is_none());
    assert_eq!(session.deck.cursor, cursor);
}

#[test]
fn reset_and_clear_from_any_phase() {
    let mut session = session_dealt(&[], 1, 0);
    despawn_cards_and_reset(&mut session);
    assert_eq!(session.state, GameRoundState::Betting);
    assert!(session.player_hands.0.is_empty());
    assert!(session.dealer_hand.is_none());
    assert_eq!((session.balance.value, session.bet.value), (950, 50));
    reset_game(&mut session);
    assert_eq!(session.state, GameRoundState::RoundStart);
    assert_eq!((session.balance.value, session.bet.value), (1000, 0));
}

#[test]
fn phases_and_screens_have_names() {
    assert_eq!(track_game_state(GameRoundState::RoundStart), "Round Start");
    assert_eq!(track_game_state(GameRoundState::Betting), "Betting");
    assert_eq!(track_game_state(GameRoundState::PlayerHand), "Player Hand");
    assert_eq!(track_game_state(GameRoundState::DealerHand), "Dealer Hand");
    assert_eq!(track_game_state(GameRoundState::RoundEnd), "Round End");
    assert_eq!(track_app_state(AppState::Start), "Start");
    assert_eq!(track_app_state(AppState::InGame), "In Game");
}

#[test]
fn enter_brings_up_the_table() {
    assert_eq!(start_game(true, AppState::Start), AppState::InGame);
    assert_eq!(start_game(false, AppState::Start), AppState::Start);
    assert_eq!(start_game(false, AppState::InGame), AppState::InGame);
    assert_eq!(start_game(true, AppState::InGame), AppState::InGame);
}

#[test]
fn test_spawn_player() {
    let mut deck = Deck::default();
    let balance = BalanceValue { value: 1000 };
    let player_hands = spawn_player(&mut deck, &BetValue { value: 0 });
    let mut player_found = false;
    for _ in 0..1 {
        player_found = true;
        assert_eq!(balance.value as f64, 1000.0);
        assert_eq!(player_hands.0.len(), 1);
        let player_hand = &player_hands.0[0];
        assert_eq!(player_hand.cards.len(), 2);
    }
    assert!(player_found);
}

#[test]
fn spawn_player_carries_the_stake() {
    let mut deck = deck_dealing(&[card(Rank::Ace, Suit::Hearts), card(Rank::King, Suit::Hearts)]);
    let hands = spawn_player(&mut deck, &BetValue { value: 35 });
    assert_eq!(hands.0.len(), 1);
    assert_eq!(hands.0[0].bet, 35);
    assert_eq!(
        hands.0[0].cards,
        vec![card(Rank::Ace, Suit::Hearts), card(Rank::King, Suit::Hearts)]
    );
    assert_eq!(deck.cursor, 3);
}

#[test]
fn spawn_dealer_deals_two_cards_and_brings_a_shoe_of_two() {
    let mut deck = deck_dealing(&[card(Rank::Nine, Suit::Hearts), card(Rank::Three, Suit::Clubs)]);
    let dealer = spawn_dealer(&mut deck);
    assert_eq!(
        dealer.dealer_hand.cards,
        vec![card(Rank::Nine, Suit::Hearts), card(Rank::Three, Suit::Clubs)]
    );
    assert_eq!(dealer.dealer_decks.number_of_decks, 2);
    assert_eq!(dealer.dealer_decks.decks.len(), 2);
    assert_eq!(dealer.dealer_decks.decks[0].cards.len(), 52);
    assert_eq!(deck.cursor, 3);
}

#[test]
fn random_rounds_keep_the_books() {
    for _ in 0..200 {
        let mut session = GameSession::new();
        in_game_setup(&mut session).unwrap();
        for _ in 0..5 {
            chip_button_click_system(&mut session, ChipButtonValue::Ten).unwrap();
            deal_opening_hands(&mut session).unwrap();
            assert_eq!(session.player_hands.0[0].cards.len(), 2);
            let before = session.balance.value + session.bet.value;
            while session.state == GameRoundState::PlayerHand
                && blackjack::hand::total(&session.player_hands.0[0].cards).0 < 15
            {
                hit_player_hand(&mut session).unwrap();
            }
            if session.state == GameRoundState::PlayerHand {
                stand_player_hand(&mut session).unwrap();
                play_dealer_hand(&mut session).unwrap();
            }
            assert_eq!(session.state, GameRoundState::RoundEnd);
            assert_eq!(session.bet.value, 0);
            assert!(session.is_valid());
            let result = session.last_result.unwrap();
            assert_eq!(result.bet, 10);
            assert_eq!(session.balance.value, before - 10 + result.payout);
            let dealer = &session.dealer_hand.as_ref().unwrap().cards;
            if result.outcome != RoundOutcome::PlayerBust {
                assert!(!blackjack::hand::dealer_must_hit(dealer));
                let mut shorter = dealer.clone();
                shorter.pop();
                if shorter.len() >= 2 {
                    assert!(blackjack::hand::dealer_must_hit(&shorter));
                }
            }
            player_button_system(&mut session, PlayerButtonValues::KeepPlaying).unwrap();
        }
    }
}
