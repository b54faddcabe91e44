//! Fixed numbers of the game and the states it moves through.

use vstd::prelude::*;

verus! {

/// The point value that stands for "no card".
pub const NO_CARD_VALUE: u8 = 0;

/// What a player starts a session with.
pub const STARTING_BALANCE: i64 = 1000;

/// A total above this is too much.
pub const BUST_THRESHOLD: u32 = 21;

/// The dealer draws while the low total is below this.
pub const DEALER_STAND_LOW: u32 = 17;

/// The dealer draws while the high total is below this.
pub const DEALER_STAND_HIGH: u32 = 18;

/// Whether the title screen or the table is shown.
#[derive(Debug, Clone, Copy, Eq, PartialEq, Hash, Default, Structural)]
pub enum AppState {
    #[default]
    Start,
    InGame,
}

/// Whether a shoe has been shuffled yet.
#[derive(Debug, Clone, Copy, Eq, PartialEq, Hash, Default, Structural)]
pub enum DeckState {
    #[default]
    NotShuffled,
    Shuffled,
}

/// The phases of a round, in the order in which a round passes through them.
#[derive(Debug, Clone, Copy, Eq, PartialEq, Hash, Default, Structural)]
pub enum GameRoundState {
    #[default]
    RoundStart,
    Betting,
    PlayerHand,
    DealerHand,
    RoundEnd,
}

} // verus!
