use vstd::prelude::*;

verus! {

/// One liquidity provider's stake in one pool.
///
/// A position refers to its pool by identifier only, never by a live handle;
/// every operation looks the pool up by identifier and passes it in
/// explicitly. Zero liquidity is a valid terminal-but-live state.
#[derive(Clone, Copy, Debug, PartialEq, Eq)]
pub struct Position {
    /// Identifier of the owning pool.
    pub pool: u64,
    /// Identifier of the ownership token that represents this position.
    pub nft_mint: u64,
    /// Liquidity units currently owned and withdrawable.
    pub unlocked_liquidity: u128,
}

impl Position {
    /// A new position in pool `pool`, owning `unlocked_liquidity` from the
    /// start.
    pub fn initialize(pool: u64, nft_mint: u64, unlocked_liquidity: u128) -> (position: Position)
        ensures
            position.pool == pool,
            position.nft_mint == nft_mint,
            position.unlocked_liquidity == unlocked_liquidity,
    {
        Position { pool, nft_mint, unlocked_liquidity }
    }
}

} // verus!
