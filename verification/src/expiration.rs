//! When a grant ends.

use vstd::prelude::*;

verus! {

/// The height and time of the block in which a request runs.
#[derive(Clone, Copy, Debug, PartialEq, Eq, Structural)]
pub struct BlockInfo {
    /// block height
    pub height: u64,
    /// block time, in seconds since 01/01/1970
    pub time: u64,
}

/// The end of a grant: at a block height, at a block time, or never.
#[derive(Clone, Copy, Debug, PartialEq, Eq, Structural)]
pub enum Expiration {
    /// expires at this block height
    AtHeight(u64),
    /// expires at this time in seconds since 01/01/1970
    AtTime(u64),
    /// never expires
    Never,
}

impl Expiration {
    /// Whether the grant has ended in `block`: the block has reached the height
    /// or the time. `Never` has not ended in any block.
    pub open spec fn expired_at(self, block: BlockInfo) -> bool {
        match self {
            Expiration::AtHeight(height) => block.height >= height,
            Expiration::AtTime(time) => block.time >= time,
            Expiration::Never => false,
        }
    }

    /// Returns true if the grant has ended in `block`.
    pub fn is_expired(&self, block: &BlockInfo) -> (r: bool)
        ensures
            r == self.expired_at(*block),
    {
        match self {
            Expiration::AtHeight(height) => block.height >= *height,
            Expiration::AtTime(time) => block.time >= *time,
            Expiration::Never => false,
        }
    }
}

impl Default for Expiration {
    fn default() -> (e: Self)
        ensures
            e == Expiration::Never,
    {
        Expiration::Never
    }
}

} // verus!
