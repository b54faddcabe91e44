//! What a source of cards can do: be shuffled, and deal.

use vstd::multiset::Multiset;
use vstd::prelude::*;

use crate::card::Card;

verus! {

/// A holder of cards whose order can be randomised.
pub trait Shufflable {
    /// Whether the holder is in a state from which it can shuffle and deal.
    spec fn well_formed(&self) -> bool;

    /// The cards held, each as often as it occurs, without their order.
    spec fn card_multiset(&self) -> Multiset<Card>;

    /// Reorders the cards at random. No card is gained or lost, and a
    /// well-formed holder stays well-formed.
    fn shuffle(&mut self)
        ensures
            final(self).card_multiset() == old(self).card_multiset(),
            old(self).well_formed() ==> final(self).well_formed(),
    ;
}

/// A holder of cards that hands them out one at a time and never runs dry.
pub trait Dealable: Shufflable {
    /// Hands out one of the cards held. The holder keeps all its cards: a
    /// dealt card is only marked as used until the next reshuffle.
    fn deal(&mut self) -> (card: Card)
        requires
            old(self).well_formed(),
        ensures
            final(self).well_formed(),
            final(self).card_multiset() == old(self).card_multiset(),
            final(self).card_multiset().count(card) > 0,
    ;
}

} // verus!
