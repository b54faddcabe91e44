//! The controls a player can press.

use vstd::prelude::*;

verus! {

/// The four chips a stake is built from.
#[derive(Debug, Clone, Copy, PartialEq, Eq, Hash, Structural)]
pub enum ChipButtonValue {
    One,
    Five,
    Ten,
    Fifty,
}

/// The actions a player can take at the table.
#[derive(Debug, Clone, Copy, PartialEq, Eq, Hash, Structural)]
pub enum PlayerButtonValues {
    Hit,
    Stand,
    DoubleDown,
    Home,
    Deal,
    KeepPlaying,
}

impl ChipButtonValue {
    /// What the chip is worth.
    pub open spec fn spec_amount(self) -> i64 {
        match self {
            ChipButtonValue::One => 1,
            ChipButtonValue::Five => 5,
            ChipButtonValue::Ten => 10,
            ChipButtonValue::Fifty => 50,
        }
    }

    /// What the chip is worth.
    #[verifier::when_used_as_spec(spec_amount)]
    pub fn amount(self) -> (amount: i64)
        ensures
            amount == self.spec_amount(),
    {
        match self {
            ChipButtonValue::One => 1,
            ChipButtonValue::Five => 5,
            ChipButtonValue::Ten => 10,
            ChipButtonValue::Fifty => 50,
        }
    }
}

} // verus!
