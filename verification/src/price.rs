//! Prices in whole cents, and the dollar-boundary rule.

use vstd::prelude::*;

verus! {

/// The direction in which the rounded dollar value moved between two observations.
#[derive(Clone, Copy, Debug, PartialEq, Eq, Structural)]
pub enum PriceDelta {
    Up,
    Down,
    Unchanged,
}

/// The whole-dollar value nearest to `cents`, halves rounding up.
pub open spec fn rounded_dollars(cents: int) -> int {
    (cents + 50) / 100
}

/// How the rounded dollar value of `current` stands against that of `previous`.
pub open spec fn delta_between(previous: int, current: int) -> PriceDelta {
    if rounded_dollars(current) > rounded_dollars(previous) {
        PriceDelta::Up
    } else if rounded_dollars(current) < rounded_dollars(previous) {
        PriceDelta::Down
    } else {
        PriceDelta::Unchanged
    }
}

/// Rounds a price in cents to whole dollars.
pub fn round_to_dollars(cents: u64) -> (dollars: u64)
    ensures
        dollars == rounded_dollars(cents as int),
{
    let whole: u64 = cents / 100;
    if cents % 100 >= 50 {
        whole + 1
    } else {
        whole
    }
}

/// Classifies the move from `previous_cents` to `current_cents` by the
/// whole-dollar values they round to. Before the first price the previous one
/// is zero, and from zero nothing is a move down.
pub fn classify(previous_cents: u64, current_cents: u64) -> (delta: PriceDelta)
    ensures
        delta == delta_between(previous_cents as int, current_cents as int),
        rounded_dollars(previous_cents as int) == rounded_dollars(current_cents as int)
            ==> delta == PriceDelta::Unchanged,
        rounded_dollars(previous_cents as int) < rounded_dollars(current_cents as int)
            ==> delta == PriceDelta::Up,
        rounded_dollars(previous_cents as int) > rounded_dollars(current_cents as int)
            ==> delta == PriceDelta::Down,
        previous_cents == 0 ==> delta != PriceDelta::Down,
{
    let before: u64 = round_to_dollars(previous_cents);
    let after: u64 = round_to_dollars(current_cents);
    if after > before {
        PriceDelta::Up
    } else if after < before {
        PriceDelta::Down
    } else {
        PriceDelta::Unchanged
    }
}

/// Two prices that round to the same dollar value make no move.
pub proof fn lemma_same_dollars_unchanged(earlier: int, later: int)
    requires
        rounded_dollars(earlier) == rounded_dollars(later),
    ensures
        delta_between(earlier, later) == PriceDelta::Unchanged,
{
}

/// A higher price whose rounded dollar value is higher too is a move up.
pub proof fn lemma_more_dollars_up(earlier: int, later: int)
    requires
        earlier < later,
        rounded_dollars(earlier) < rounded_dollars(later),
    ensures
        delta_between(earlier, later) == PriceDelta::Up,
{
}

/// A lower price whose rounded dollar value is lower too is a move down.
pub proof fn lemma_fewer_dollars_down(earlier: int, later: int)
    requires
        earlier > later,
        rounded_dollars(earlier) > rounded_dollars(later),
    ensures
        delta_between(earlier, later) == PriceDelta::Down,
{
}

/// Rounding keeps the order of prices, so a move follows the direction of
/// the prices or is none.
pub proof fn lemma_delta_follows_prices(earlier: int, later: int)
    ensures
        earlier <= later ==> delta_between(earlier, later) != PriceDelta::Down,
        earlier >= later ==> delta_between(earlier, later) != PriceDelta::Up,
{
}

/// From no price at all, as at startup, no price is a move down.
pub proof fn lemma_first_price_never_down(current: nat)
    ensures
        delta_between(0, current as int) != PriceDelta::Down,
{
}

} // verus!
