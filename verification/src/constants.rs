//! Protocol constants.

use crate::uint::U256;
use vstd::prelude::*;

verus! {

/// Default total trading fee in basis points (0.3%).
pub const DEFAULT_FEE_BPS: u64 = 30;

/// Basis points denominator (10000 = 100%).
pub const FEE_DENOMINATOR: u64 = 10_000;

/// The liquidity floor that the first deposit fixes.
pub const MINIMUM_LIQUIDITY: u64 = 1_000;

/// Minimum number of blocks between a commitment and its reveal.
pub const COMMIT_REVEAL_DELAY: u64 = 5;

/// Number of blocks after which a commitment can no longer be revealed.
pub const MAX_COMMITMENT_AGE: u64 = 1_000_000;

/// Maximum configurable fee in basis points (10%).
pub const MAX_FEE_BPS: u64 = 1_000;

/// Treasury share of the default fee in basis points (0.12%).
pub const TREASURY_FEE_BPS: u64 = 12;

/// Liquidity providers' share of the default fee in basis points (0.18%).
pub const LP_FEE_BPS: u64 = DEFAULT_FEE_BPS - TREASURY_FEE_BPS;

/// Share of the fee set aside for gas rebates, in basis points.
pub const GAS_REBATE_BPS: u64 = 5;

/// The fixed-point unit of cumulative prices, `2^112`.
pub const Q112: u128 = 0x1_0000_0000_0000_0000_0000_0000_0000;

/// `2^112` as a 256-bit integer.
pub fn q112_u256() -> (r: U256)
    ensures
        r@ == Q112,
{
    U256 { l0: 0, l1: 0x1_0000_0000_0000, l2: 0, l3: 0 }
}

/// A 64-bit integer as a 256-bit integer.
pub fn as_u256(value: u64) -> (r: U256)
    ensures
        r@ == value,
{
    U256::from_u64(value)
}

} // verus!
