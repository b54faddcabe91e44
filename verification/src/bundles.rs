//! What the dealer brings to the table.

use vstd::prelude::*;

use crate::deck::Decks;
use crate::hand::DealerHand;

verus! {

/// The dealer's shoe and the dealer's hand.
#[derive(Clone, Debug)]
pub struct DealerBundle {
    pub dealer_decks: Decks,
    pub dealer_hand: DealerHand,
}

} // verus!
