//! One player's session at the table: the deck, the money, the hands and the
//! phase of the round. The rules of the round are stated here on the
//! session's view; the functions that carry them out are in the modules of
//! the player, the dealer and the table.

use vstd::prelude::*;

use crate::card::Card;
use crate::constants::{GameRoundState, STARTING_BALANCE};
use crate::dealer_systems::{determine_win, spec_determine_win};
use crate::deck::{is_full_deck, Deck};
use crate::hand::{
    all_carry_rank_points, all_standard, is_bust, lemma_standard_totals, low_total,
    spec_dealer_must_hit, spec_is_bust, DealerHand, PlayerHand, PlayerHandView, PlayerHands,
};
use crate::resources::{BalanceValue, BetValue};
use crate::text::{append, append_decimal, decimal_text};

verus! {

/// Why an action was turned down. Nothing changes when one is.
#[derive(Debug, Clone, Copy, PartialEq, Eq, Hash, Structural)]
pub enum GameError {
    /// The balance does not cover the stake asked for.
    InsufficientFunds,
    /// The round is in a phase that does not take this action.
    InvalidActionForPhase,
    /// No hand has been dealt yet.
    EmptyHandQuery,
}

/// How a round ended.
#[derive(Debug, Clone, Copy, PartialEq, Eq, Hash, Structural)]
pub enum RoundOutcome {
    /// The player went over the threshold; the stake is lost.
    PlayerBust,
    /// The dealer went over the threshold; the player wins.
    DealerBust,
    /// Nobody went over and the player's total is the larger.
    PlayerWins,
    /// Nobody went over and the dealer's total is the larger.
    DealerWins,
    /// Nobody went over and the totals are equal; the stake goes back.
    Push,
}

/// The settlement of a round: how it ended, what was staked, and what was
/// paid to the player.
#[derive(Debug, Clone, Copy, PartialEq, Eq, Hash, Structural)]
pub struct RoundResult {
    pub outcome: RoundOutcome,
    pub bet: i64,
    pub payout: i64,
}

/// Everything one player's game holds between two events.
#[derive(Clone, Debug)]
pub struct GameSession {
    pub deck: Deck,
    pub balance: BalanceValue,
    pub bet: BetValue,
    /// Empty until the cards are dealt.
    pub player_hands: PlayerHands,
    /// `None` until the cards are dealt.
    pub dealer_hand: Option<DealerHand>,
    pub state: GameRoundState,
    /// Whether the dealer's first card has been turned face up.
    pub dealer_card_revealed: bool,
    /// The settlement of the round, once it has been made.
    pub last_result: Option<RoundResult>,
}

/// A session as contracts see it.
pub struct SessionView {
    /// The cards of the deck in their order.
    pub deck: Seq<Card>,
    /// The position of the card dealt last.
    pub cursor: int,
    pub balance: int,
    pub bet: int,
    pub player_hands: Seq<PlayerHandView>,
    pub dealer_hand: Option<Seq<Card>>,
    pub state: GameRoundState,
    pub dealer_card_revealed: bool,
    pub last_result: Option<RoundResult>,
}

impl View for GameSession {
    type V = SessionView;

    open spec fn view(&self) -> SessionView {
        SessionView {
            deck: self.deck.cards@,
            cursor: self.deck.cursor as int,
            balance: self.balance.value as int,
            bet: self.bet.value as int,
            player_hands: self.player_hands@,
            dealer_hand: match self.dealer_hand {
                Some(hand) => Some(hand@),
                None => None,
            },
            state: self.state,
            dealer_card_revealed: self.dealer_card_revealed,
            last_result: self.last_result,
        }
    }
}

impl RoundOutcome {
    /// Whether the player is paid winnings.
    pub open spec fn spec_player_wins(self) -> bool {
        self is DealerBust || self is PlayerWins
    }

    /// What the player is paid on a stake of `bet`: twice the stake on a win,
    /// the stake on a push, nothing on a loss.
    pub open spec fn spec_payout(self, bet: int) -> int {
        if self.spec_player_wins() {
            2 * bet
        } else if self is Push {
            bet
        } else {
            0
        }
    }

    /// Whether the player is paid winnings.
    pub fn player_wins(self) -> (wins: bool)
        ensures
            wins == self.spec_player_wins(),
    {
        match self {
            RoundOutcome::DealerBust | RoundOutcome::PlayerWins => true,
            _ => false,
        }
    }

    /// What the player is paid on a stake of `bet`.
    pub fn payout(self, bet: i64) -> (paid: i64)
        requires
            self.spec_player_wins() ==> i64::MIN <= 2 * bet <= i64::MAX,
        ensures
            paid == self.spec_payout(bet as int),
    {
        match self {
            RoundOutcome::DealerBust | RoundOutcome::PlayerWins => 2 * bet,
            RoundOutcome::Push => bet,
            _ => 0,
        }
    }
}

impl RoundOutcome {
    /// How the message of a round with this ending begins.
    pub open spec fn message_opening(self) -> Seq<char> {
        if self.spec_player_wins() {
            "You Win $"@
        } else if self is Push {
            "Push! You keep $"@
        } else {
            "You Lose $"@
        }
    }

    /// How the message of a round with this ending closes.
    pub open spec fn message_ending(self) -> Seq<char> {
        match self {
            RoundOutcome::DealerBust => "! (Dealer Bust)"@,
            RoundOutcome::PlayerBust => "! (Bust)"@,
            _ => "!"@,
        }
    }
}

impl RoundResult {
    /// The message that tells the player how the round ended: won, lost or
    /// kept, the stake in decimal digits, and the bust that decided it, if
    /// one did.
    pub open spec fn spec_message(self) -> Seq<char> {
        self.outcome.message_opening() + decimal_text(self.bet as int)
            + self.outcome.message_ending()
    }

    /// The message that tells the player how the round ended.
    pub fn message(&self) -> (text: String)
        ensures
            text@ == self.spec_message(),
    {
        let mut text = String::new();
        let opening = match self.outcome {
            RoundOutcome::DealerBust | RoundOutcome::PlayerWins => "You Win $",
            RoundOutcome::Push => "Push! You keep $",
            _ => "You Lose $",
        };
        let ending = match self.outcome {
            RoundOutcome::DealerBust => "! (Dealer Bust)",
            RoundOutcome::PlayerBust => "! (Bust)",
            _ => "!",
        };
        append(&mut text, opening);
        append_decimal(&mut text, self.bet);
        append(&mut text, ending);
        assert(text@ =~= self.spec_message());
        text
    }
}

/// What is asked of the cards of a dealt hand: at least the two opening
/// cards, no more than can be drawn before going over, each with the points
/// of its rank.
pub open spec fn hand_in_play(cards: Seq<Card>) -> bool {
    2 <= cards.len() <= 22 && all_standard(cards)
}

/// Whether the cards can be those of a dealt hand.
pub fn cards_in_play(cards: &Vec<Card>) -> (sound: bool)
    ensures
        sound == hand_in_play(cards@),
{
    2 <= cards.len() && cards.len() <= 22 && all_carry_rank_points(cards)
}

/// A hand in play that is not over the threshold can take one more card of
/// the deck: with every card counting at least 1, it holds 21 cards at most.
pub proof fn lemma_hand_takes_a_card(cards: Seq<Card>, card: Card)
    requires
        hand_in_play(cards),
        low_total(cards) <= 21,
        card.is_standard(),
    ensures
        hand_in_play(cards.push(card)),
{
    lemma_standard_totals(cards);
    assert forall|i: int| 0 <= i < cards.push(card).len() implies (#[trigger] cards.push(
        card,
    )[i]).is_standard() by {
        if i < cards.len() {
            assert(cards.push(card)[i] == cards[i]);
        }
    }
}

/// The dealer's rule, as a statement about the cards drawn under it: the
/// hand with all of them asks for no more, and the hand before each of them
/// asked for one.
pub open spec fn drawn_by_dealer_rule(hand: Seq<Card>, drawn: Seq<Card>) -> bool {
    &&& !spec_dealer_must_hit(hand + drawn)
    &&& forall|k: int|
        0 <= k < drawn.len() ==> spec_dealer_must_hit(hand + #[trigger] drawn.take(k))
}

impl SessionView {
    /// Whether both hands have been dealt.
    pub open spec fn has_hands(self) -> bool {
        self.player_hands.len() == 1 && self.dealer_hand is Some
    }

    /// The cards of the hand the player plays.
    pub open spec fn player_cards(self) -> Seq<Card> {
        self.player_hands[0].cards
    }

    /// The dealer's cards.
    pub open spec fn dealer_cards(self) -> Seq<Card> {
        self.dealer_hand->0
    }

    /// What holds of a session between any two events.
    pub open spec fn well_formed(self) -> bool {
        &&& is_full_deck(self.deck)
        &&& 0 <= self.cursor < 52
        &&& 0 <= self.balance
        &&& 0 <= self.bet
        &&& self.balance + self.bet <= i64::MAX
        &&& match self.state {
            GameRoundState::RoundStart | GameRoundState::Betting => {
                self.player_hands.len() == 0 && self.dealer_hand is None
            },
            _ => {
                self.has_hands() && hand_in_play(self.player_cards()) && hand_in_play(
                    self.dealer_cards(),
                )
            },
        }
        &&& (self.state is PlayerHand || self.state is DealerHand) ==> !spec_is_bust(
            self.player_cards(),
        )
        &&& self.dealer_card_revealed ==> (self.state is DealerHand || self.state is RoundEnd)
        &&& self.last_result is Some ==> (self.state is RoundEnd && self.bet == 0)
    }

    /// Whether the round has ended and still awaits its settlement.
    pub open spec fn awaits_settlement(self) -> bool {
        self.state is RoundEnd && self.last_result is None
    }

    /// How the round ends with the cards as they lie.
    pub open spec fn outcome(self) -> RoundOutcome {
        spec_determine_win(self.player_cards(), self.dealer_cards())
    }

    /// The settlement that the cards as they lie call for.
    pub open spec fn result(self) -> RoundResult {
        RoundResult {
            outcome: self.outcome(),
            bet: self.bet as i64,
            payout: self.outcome().spec_payout(self.bet) as i64,
        }
    }

    /// Whether the balance can take the payout of the settlement that is due,
    /// if one is due.
    pub open spec fn settlement_fits(self) -> bool {
        self.awaits_settlement() && self.outcome().spec_player_wins() ==> self.balance + 2
            * self.bet <= i64::MAX
    }

    /// The session after settlement. A round that awaits its settlement gets
    /// it: the payout goes to the balance, the stake is cleared, the result is
    /// recorded. In every other case the session is left as it is: a round is
    /// settled once.
    pub open spec fn settled(self) -> SessionView {
        if self.awaits_settlement() {
            SessionView {
                balance: self.balance + self.outcome().spec_payout(self.bet),
                bet: 0,
                last_result: Some(self.result()),
                ..self
            }
        } else {
            self
        }
    }

    /// Setting up the table opens the betting.
    pub open spec fn set_up(self) -> SessionView {
        SessionView { state: GameRoundState::Betting, ..self }
    }

    /// Why a stake of `amount` is turned down, if it is.
    pub open spec fn stake_refusal(self, amount: int) -> Option<GameError> {
        if !(self.state is Betting) {
            Some(GameError::InvalidActionForPhase)
        } else if self.balance < amount {
            Some(GameError::InsufficientFunds)
        } else {
            None
        }
    }

    /// Moving `amount` from the balance to the stake.
    pub open spec fn staked(self, amount: int) -> SessionView {
        SessionView { balance: self.balance - amount, bet: self.bet + amount, ..self }
    }

    /// Why dealing is turned down, if it is: the cards are dealt while stakes
    /// are placed, once something is staked.
    pub open spec fn deal_refusal(self) -> Option<GameError> {
        if self.state is Betting && self.bet > 0 {
            None
        } else {
            Some(GameError::InvalidActionForPhase)
        }
    }

    /// The opening hands dealt from a deck left as `deck` with its cursor at
    /// `cursor`: the player's hand carries the stake, and the player's turn
    /// begins.
    pub open spec fn dealt(
        self,
        deck: Seq<Card>,
        cursor: int,
        player_cards: Seq<Card>,
        dealer_cards: Seq<Card>,
    ) -> SessionView {
        SessionView {
            deck,
            cursor,
            player_hands: seq![PlayerHandView { cards: player_cards, bet: self.bet }],
            dealer_hand: Some(dealer_cards),
            state: GameRoundState::PlayerHand,
            ..self
        }
    }

    /// One more card for the player, from a deck left as `deck` with its cursor
    /// at `cursor`.
    pub open spec fn player_drew(self, deck: Seq<Card>, cursor: int, card: Card) -> SessionView {
        SessionView {
            deck,
            cursor,
            player_hands: self.player_hands.update(
                0,
                PlayerHandView {
                    cards: self.player_cards().push(card),
                    bet: self.player_hands[0].bet,
                },
            ),
            ..self
        }
    }

    /// The end of the player's turn: the dealer's first card is turned face
    /// up and the round moves to `next`.
    pub open spec fn turn_ended(self, next: GameRoundState) -> SessionView {
        SessionView { state: next, dealer_card_revealed: true, ..self }
    }

    /// A hit: the player draws; a hand that is then over the threshold ends
    /// the round, which is settled as lost.
    pub open spec fn after_hit(self, deck: Seq<Card>, cursor: int, card: Card) -> SessionView {
        let drew = self.player_drew(deck, cursor, card);
        if spec_is_bust(drew.player_cards()) {
            drew.turn_ended(GameRoundState::RoundEnd).settled()
        } else {
            drew
        }
    }

    /// Standing ends the player's turn and begins the dealer's.
    pub open spec fn after_stand(self) -> SessionView {
        self.turn_ended(GameRoundState::DealerHand)
    }

    /// Why doubling down is turned down, if it is.
    pub open spec fn double_down_refusal(self) -> Option<GameError> {
        if !(self.state is PlayerHand) {
            Some(GameError::InvalidActionForPhase)
        } else if self.balance < self.bet {
            Some(GameError::InsufficientFunds)
        } else {
            None
        }
    }

    /// The stake doubled out of the balance, on the session and on the hand.
    pub open spec fn doubled(self) -> SessionView {
        SessionView {
            balance: self.balance - self.bet,
            bet: 2 * self.bet,
            player_hands: self.player_hands.update(
                0,
                PlayerHandView { cards: self.player_cards(), bet: 2 * self.bet },
            ),
            ..self
        }
    }

    /// Doubling down: the stake is doubled, the player draws exactly one
    /// card, and the player's turn is over. A hand over the threshold ends
    /// the round, settled as lost; any other hand goes to the dealer.
    pub open spec fn after_double_down(
        self,
        deck: Seq<Card>,
        cursor: int,
        card: Card,
    ) -> SessionView {
        let drew = self.doubled().player_drew(deck, cursor, card);
        if spec_is_bust(drew.player_cards()) {
            drew.turn_ended(GameRoundState::RoundEnd).settled()
        } else {
            drew.turn_ended(GameRoundState::DealerHand)
        }
    }

    /// The dealer's turn: the cards `drawn` join the dealer's hand, the round
    /// ends and is settled.
    pub open spec fn after_dealer_play(
        self,
        deck: Seq<Card>,
        cursor: int,
        drawn: Seq<Card>,
    ) -> SessionView {
        SessionView {
            deck,
            cursor,
            dealer_hand: Some(self.dealer_cards() + drawn),
            state: GameRoundState::RoundEnd,
            ..self
        }.settled()
    }

    /// Why a hit or a stand is turned down, if it is: both belong to the
    /// player's turn.
    pub open spec fn turn_refusal(self) -> Option<GameError> {
        if self.state is PlayerHand {
            None
        } else {
            Some(GameError::InvalidActionForPhase)
        }
    }

    /// Why going on to the next round is turned down, if it is: a round is
    /// left once it has ended and is settled.
    pub open spec fn keep_playing_refusal(self) -> Option<GameError> {
        if self.state is RoundEnd && self.last_result is Some {
            None
        } else {
            Some(GameError::InvalidActionForPhase)
        }
    }

    /// The table cleared for the next round: no hands, no face-up card, no
    /// result; stakes can be placed again.
    pub open spec fn cleared(self) -> SessionView {
        SessionView {
            player_hands: Seq::empty(),
            dealer_hand: None,
            state: GameRoundState::Betting,
            dealer_card_revealed: false,
            last_result: None,
            ..self
        }
    }

    /// The session torn down and begun again: the starting balance, nothing
    /// staked, nothing dealt. The deck is kept as it is.
    pub open spec fn reset(self) -> SessionView {
        SessionView {
            balance: STARTING_BALANCE as int,
            bet: 0,
            state: GameRoundState::RoundStart,
            ..self.cleared()
        }
    }
}

impl GameSession {
    /// What holds of a session between any two events.
    pub open spec fn well_formed(&self) -> bool {
        self@.well_formed()
    }

    /// Whether the session is well-formed.
    pub fn is_valid(&self) -> (valid: bool)
        ensures
            valid == self.well_formed(),
    {
        assert(self@.player_hands.len() == self.player_hands.0@.len());
        if !self.deck.is_valid() {
            return false;
        }
        if self.balance.value < 0 || self.bet.value < 0 || self.balance.value > i64::MAX
            - self.bet.value {
            return false;
        }
        let revealable = matches!(
            self.state,
            GameRoundState::DealerHand | GameRoundState::RoundEnd
        );
        let settled = matches!(self.state, GameRoundState::RoundEnd) && self.bet.value == 0;
        if (self.dealer_card_revealed && !revealable) || (self.last_result.is_some() && !settled) {
            return false;
        }
        match self.state {
            GameRoundState::RoundStart | GameRoundState::Betting => {
                self.player_hands.0.len() == 0 && self.dealer_hand.is_none()
            },
            _ => {
                if self.player_hands.0.len() != 1 {
                    return false;
                }
                assert(self@.player_cards() == self.player_hands.0@[0].cards@);
                let player_cards = &self.player_hands.0[0].cards;
                let in_play = match &self.dealer_hand {
                    Some(dealer) => cards_in_play(player_cards) && cards_in_play(&dealer.cards),
                    None => false,
                };
                let in_turn = matches!(
                    self.state,
                    GameRoundState::PlayerHand | GameRoundState::DealerHand
                );
                in_play && !(in_turn && is_bust(player_cards))
            },
        }
    }

    /// A new session: a shuffled deck, the starting balance, nothing staked,
    /// no cards dealt.
    pub fn new() -> (session: GameSession)
        ensures
            session.well_formed(),
            session@.state is RoundStart,
            session@.balance == STARTING_BALANCE,
            session@.bet == 0,
            session@.cursor == 0,
            session@.player_hands.len() == 0,
            session@.dealer_hand is None,
            session@.last_result is None,
            !session@.dealer_card_revealed,
    {
        GameSession {
            deck: Deck::new_shuffled(),
            balance: BalanceValue { value: STARTING_BALANCE },
            bet: BetValue { value: 0 },
            player_hands: PlayerHands(Vec::new()),
            dealer_hand: None,
            state: GameRoundState::RoundStart,
            dealer_card_revealed: false,
            last_result: None,
        }
    }

    /// The hand the player plays, if the cards have been dealt.
    pub fn player_hand(&self) -> (hand: Result<&PlayerHand, GameError>)
        ensures
            match hand {
                Ok(found) => self@.player_hands.len() > 0 && found@ == self@.player_hands[0],
                Err(error) => self@.player_hands.len() == 0 && error
                    == GameError::EmptyHandQuery,
            },
    {
        if self.player_hands.0.len() == 0 {
            Err(GameError::EmptyHandQuery)
        } else {
            Ok(&self.player_hands.0[0])
        }
    }

    /// The dealer's hand, if the cards have been dealt.
    pub fn dealer(&self) -> (hand: Result<&DealerHand, GameError>)
        ensures
            match hand {
                Ok(found) => self@.dealer_hand == Some(found@),
                Err(error) => self@.dealer_hand is None && error == GameError::EmptyHandQuery,
            },
    {
        match &self.dealer_hand {
            Some(hand) => Ok(hand),
            None => Err(GameError::EmptyHandQuery),
        }
    }

    /// Whether the dealer's card at `index` lies face up. Only the first card
    /// is ever face down, and only until it is revealed.
    pub fn dealer_card_face_up(&self, index: usize) -> (face_up: bool)
        ensures
            face_up == (index != 0 || self@.dealer_card_revealed),
    {
        index != 0 || self.dealer_card_revealed
    }

    /// Whether the cards can be dealt: stakes are being placed and something
    /// has been staked.
    pub fn deal_available(&self) -> (available: bool)
        ensures
            available == (self@.deal_refusal() is None),
    {
        match self.state {
            GameRoundState::Betting => self.bet.value > 0,
            _ => false,
        }
    }
}

/// Settles the round that has ended: decides it from the two hands, pays the
/// player twice the stake on a win and the stake on a push, clears the stake
/// and records the result. Called again for the same round it changes nothing
/// and gives the recorded result. Outside the end of a round it is turned
/// down.
pub fn settle_round(session: &mut GameSession) -> (result: Result<RoundResult, GameError>)
    requires
        old(session).well_formed(),
        old(session)@.settlement_fits(),
    ensures
        final(session)@ == old(session)@.settled(),
        final(session).well_formed(),
        match result {
            Ok(settlement) => old(session)@.state is RoundEnd && final(session)@.last_result
                == Some(settlement),
            Err(error) => !(old(session)@.state is RoundEnd) && error
                == GameError::InvalidActionForPhase,
        },
{
    match session.state {
        GameRoundState::RoundEnd => {},
        _ => {
            return Err(GameError::InvalidActionForPhase);
        },
    }
    if let Some(recorded) = session.last_result {
        return Ok(recorded);
    }
    let outcome = determine_win(&session.player_hands.0[0], session.dealer_hand.as_ref().unwrap());
    let payout = outcome.payout(session.bet.value);
    let result = RoundResult { outcome, bet: session.bet.value, payout };
    session.balance.value = session.balance.value + payout;
    session.bet.value = 0;
    session.last_result = Some(result);
    Ok(result)
}

/// A round is settled once: settling a settled session changes nothing, so
/// no payout is ever credited twice.
pub proof fn lemma_settlement_is_applied_once(session: SessionView)
    ensures
        session.settled().settled() == session.settled(),
        session.settled().settled().balance == session.settled().balance,
        !session.settled().awaits_settlement(),
{
}

} // verus!
