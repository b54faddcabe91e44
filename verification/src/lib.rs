//! The gameplay core of a single-player Blackjack table: a deck that is
//! shuffled and dealt, hand totals with the low/high ace model, the dealer's
//! fixed drawing rule, and the round state machine that settles bets.

pub mod bundles;
pub mod card;
pub mod components;
pub mod constants;
pub mod dealer_systems;
pub mod deck;
pub mod deck_laws;
pub mod hand;
pub mod in_game_systems;
pub mod player_systems;
pub mod resources;
pub mod round;
pub mod start_game_systems;
pub mod text;
pub mod traits;
