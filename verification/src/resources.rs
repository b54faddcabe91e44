//! The player's money: what is in hand and what is on the table.

use vstd::prelude::*;

verus! {

/// Money the player holds and has not staked.
#[derive(Debug, Clone, Copy, Eq, PartialEq, Hash, Default, Structural)]
pub struct BalanceValue {
    pub value: i64,
}

/// Money staked on the round in progress.
#[derive(Debug, Clone, Copy, Eq, PartialEq, Hash, Default, Structural)]
pub struct BetValue {
    pub value: i64,
}

} // verus!
