//! The rows of the table of bridges.

use vstd::prelude::*;

verus! {

/// A stored bridge: what is said in `channel1` is relayed to `channel2`.
#[derive(Debug, Clone, Copy, PartialEq, Eq, Structural)]
pub struct ChannelPair {
    pub id: i32,
    pub channel1: i64,
    pub channel2: i64,
}

/// A bridge about to be stored; the table assigns its `id`.
#[derive(Debug, Clone, Copy, PartialEq, Eq, Structural)]
pub struct InsertableChannelPair {
    pub id: Option<i32>,
    pub channel1: i64,
    pub channel2: i64,
}

impl InsertableChannelPair {
    /// A new bridge from `channel1` to `channel2`, without an `id`.
    pub fn new(channel1: i64, channel2: i64) -> (pair: Self)
        ensures
            pair == (InsertableChannelPair { id: None, channel1, channel2 }),
    {
        InsertableChannelPair { id: None, channel1, channel2 }
    }
}

} // verus!
