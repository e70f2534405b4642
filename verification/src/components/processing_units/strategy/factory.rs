//! Builds a strategy from its configured name.

use crate::components::processing_units::strategy::Algorithms;
use crate::components::processing_units::strategy::trend_following::TrendFollowing;
use crate::utils::text::same_text;
use vstd::prelude::*;

verus! {

/// Whether a strategy of that name can be built.
pub open spec fn known_strategy(strategy: Seq<char>) -> bool {
    strategy == "TrendFollowing"@
}

/// Whether a strategy of that name can be built.
pub fn is_known(strategy: &str) -> (r: bool)
    ensures
        r == known_strategy(strategy@),
{
    same_text(strategy, "TrendFollowing")
}

/// The strategy of the given name.
pub fn make(strategy: &str) -> (r: Algorithms)
    requires
        known_strategy(strategy@),
    ensures
        r is TrendFollowing,
{
    Algorithms::TrendFollowing(TrendFollowing::new())
}

} // verus!
