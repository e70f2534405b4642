//! One price level of an order book.

use crate::objects::fixed_point::Fixed64;
use vstd::prelude::*;

verus! {

/// A price and the quantity resting at it. In an update, a quantity of
/// zero asks for the level to be removed.
#[derive(Clone, Copy, Debug, PartialEq, Eq, Structural)]
pub struct Level {
    pub price: Fixed64,
    pub quantity: Fixed64,
}

impl Level {
    pub fn new(price: Fixed64, quantity: Fixed64) -> (r: Level)
        ensures
            r.price == price,
            r.quantity == quantity,
    {
        Level { price, quantity }
    }
}

} // verus!
