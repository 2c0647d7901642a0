//! Start-up arithmetic.

use vstd::prelude::*;

verus! {

/// The number of gateway shards to start for a bot in `guilds` servers: one
/// per thousand servers, plus one.
pub fn shard_count(guilds: u32) -> (n: u32)
    ensures
        n == guilds / 1000 + 1,
        n >= 1,
{
    guilds / 1000 + 1
}

} // verus!
