//! Strategies: what a strategy stage runs on every object, with the
//! market that the stage maintains.

pub mod base;
pub mod factory;
pub mod trend_following;

use crate::objects::Objects;
use crate::objects::market::Market;
use vstd::prelude::*;

verus! {

/// A strategy of any kind.
pub enum Algorithms {
    TrendFollowing(trend_following::TrendFollowing),
}

impl Algorithms {
    /// Runs the strategy on one object. No strategy produces an object or
    /// completes the stage.
    pub fn process(&mut self, obj: &Objects, market: &Market) -> (r: Result<
        (Option<Objects>, bool),
        String,
    >)
        ensures
            r is Ok,
            r->Ok_0.0 is None,
            !r->Ok_0.1,
    {
        match self {
            Algorithms::TrendFollowing(algo) => algo.process(obj, market),
        }
    }
}

} // verus!
