//! The last observed quote pair of one external venue: a single mutable
//! slot, last write wins, no history.

use vstd::prelude::*;

verus! {

/// One venue's latest best bid and ask, fixed-point; zero until the first
/// observation arrives.
pub struct RefPrice {
    bid_price: u64,
    ask_price: u64,
}

impl RefPrice {
    /// The stored quote pair.
    pub closed spec fn spec_get(self) -> (u64, u64) {
        (self.bid_price, self.ask_price)
    }

    /// An empty slot: both prices zero, meaning not yet warmed up.
    pub fn new() -> (r: RefPrice)
        ensures
            r.spec_get() == (0u64, 0u64),
    {
        RefPrice { bid_price: 0, ask_price: 0 }
    }

    /// Overwrites the slot with a fresh observation.
    pub fn set(&mut self, bid_price: u64, ask_price: u64)
        ensures
            final(self).spec_get() == (bid_price, ask_price),
    {
        self.bid_price = bid_price;
        self.ask_price = ask_price;
    }

    /// The latest observation, `(bid, ask)`.
    pub fn get(&self) -> (r: (u64, u64))
        ensures
            r == self.spec_get(),
    {
        (self.bid_price, self.ask_price)
    }
}

} // verus!
