//! Adding liquidity to the pool.
//!
//! A deposit runs in two steps around the token transfers. The first checks
//! the deposit and fixes the liquidity floor; the second, after both amounts
//! have been pulled from the provider, moves the reserves. No share of the
//! pool is issued for a deposit: the exchange tracks the pooled reserves
//! only.

use crate::address::Address;
use crate::constants::{as_u256, MINIMUM_LIQUIDITY};
use crate::errors::{OakError, OakResult};
use crate::events::{emit_add_liquidity, spec_add_liquidity_log, Log};
use crate::logic::{lock_reentrancy_guard, unlock_reentrancy_guard};
use crate::state::{spec_unlock, transition, CallContext, DexState, OakDEX};
use crate::token::{safe_transfer_from, TransferFrom};
use crate::uint::{u256_max, U256};
use vstd::prelude::*;

verus! {

/// A deposit that passed its checks and waits for its tokens.
#[derive(Clone, Copy, Debug, PartialEq, Eq)]
pub struct LiquidityDeposit {
    /// The account that deposits.
    pub provider: Address,
    /// The transfer of token0 from the provider to the exchange.
    pub pull0: Option<TransferFrom>,
    /// The transfer of token1 from the provider to the exchange.
    pub pull1: Option<TransferFrom>,
    /// The amount of token0 deposited.
    pub amount0: U256,
    /// The amount of token1 deposited.
    pub amount1: U256,
    /// The reserve of token0 once the deposit is in.
    pub new_reserve0: U256,
    /// The reserve of token1 once the deposit is in.
    pub new_reserve1: U256,
}

/// The liquidity floor once a deposit has been accepted: the first deposit
/// fixes it at `MINIMUM_LIQUIDITY`, and it stays.
pub open spec fn spec_floor_after_deposit(min_liquidity: nat) -> nat {
    if min_liquidity == 0 {
        MINIMUM_LIQUIDITY as nat
    } else {
        min_liquidity
    }
}

/// The state after a deposit is accepted, or the first reason it is refused.
///
/// The first deposit ever has to bring the sum of the reserves to the floor;
/// each later one has to leave both reserves at or above it. The reserves
/// are not moved yet, and the guard is held.
pub open spec fn spec_add_liquidity(
    pre: DexState,
    ctx: CallContext,
    token0: Address,
    token1: Address,
    amount0: nat,
    amount1: nat,
) -> Result<DexState, OakError> {
    let new_reserve0 = pre.reserves0 + amount0;
    let new_reserve1 = pre.reserves1 + amount1;
    if pre.locked {
        Err(OakError::ReentrantCall)
    } else if token0 == Address::spec_zero() || token1 == Address::spec_zero() {
        Err(OakError::InvalidAddress)
    } else if amount0 == 0 {
        Err(OakError::Amount0Zero)
    } else if amount1 == 0 {
        Err(OakError::Amount1Zero)
    } else if pre.paused {
        Err(OakError::Paused)
    } else if new_reserve0 > u256_max() {
        Err(OakError::Reserve0Overflow)
    } else if new_reserve1 > u256_max() {
        Err(OakError::Reserve1Overflow)
    } else if new_reserve0 + new_reserve1 > u256_max() {
        Err(OakError::LiquidityOverflow)
    } else if pre.min_liquidity == 0 && new_reserve0 + new_reserve1 < MINIMUM_LIQUIDITY {
        Err(OakError::InsufficientLiquidity)
    } else if pre.min_liquidity != 0 && (new_reserve0 < pre.min_liquidity || new_reserve1
        < pre.min_liquidity) {
        Err(OakError::InsufficientLiquidity)
    } else if ctx.sender == Address::spec_zero() || ctx.contract == Address::spec_zero() {
        Err(OakError::InvalidAddress)
    } else {
        Ok(
            DexState {
                min_liquidity: spec_floor_after_deposit(pre.min_liquidity),
                locked: true,
                ..pre
            },
        )
    }
}

/// The state after a deposit's tokens have arrived: the reserves are the new
/// ones and the guard is released.
pub open spec fn spec_finish_add_liquidity(pre: DexState, new_reserve0: nat, new_reserve1: nat)
    -> DexState {
    DexState { reserves0: new_reserve0, reserves1: new_reserve1, locked: false, ..pre }
}

impl OakDEX {
    /// Checks a deposit of `amount0` of token0 and `amount1` of token1 by
    /// the caller.
    ///
    /// On success the floor is fixed, the guard is held, and the result
    /// names the two transfers that pull the tokens from the caller and the
    /// reserves that [`OakDEX::finish_add_liquidity`] will set once they
    /// went through. On an error the state is left untouched.
    pub fn add_liquidity(
        &mut self,
        ctx: CallContext,
        token0: Address,
        token1: Address,
        amount0: U256,
        amount1: U256,
    ) -> (r: OakResult<LiquidityDeposit>)
        ensures
            transition(
                old(self)@,
                final(self)@,
                r,
                spec_add_liquidity(old(self)@, ctx, token0, token1, amount0@, amount1@),
            ),
            r matches Ok(deposit) ==> {
                &&& deposit.provider == ctx.sender
                &&& deposit.pull0 == Some(
                    TransferFrom {
                        token: token0,
                        from: ctx.sender,
                        to: ctx.contract,
                        amount: amount0,
                    },
                )
                &&& deposit.pull1 == Some(
                    TransferFrom {
                        token: token1,
                        from: ctx.sender,
                        to: ctx.contract,
                        amount: amount1,
                    },
                )
                &&& deposit.amount0 == amount0
                &&& deposit.amount1 == amount1
                &&& deposit.new_reserve0@ == old(self)@.reserves0 + amount0@
                &&& deposit.new_reserve1@ == old(self)@.reserves1 + amount1@
            },
    {
        match lock_reentrancy_guard(self) {
            Err(e) => {
                return Err(e);
            },
            Ok(_) => {},
        }
        assert(spec_unlock(self@) == old(self)@);
        match self.check_deposit(ctx, token0, token1, amount0, amount1) {
            Ok((deposit, floor)) => {
                self.min_liquidity = floor;
                Ok(deposit)
            },
            Err(e) => {
                unlock_reentrancy_guard(self);
                Err(e)
            },
        }
    }

    /// Checks a deposit while the guard is held, and computes the reserves
    /// and the floor that it leaves.
    fn check_deposit(
        &self,
        ctx: CallContext,
        token0: Address,
        token1: Address,
        amount0: U256,
        amount1: U256,
    ) -> (r: OakResult<(LiquidityDeposit, U256)>)
        ensures
            match r {
                Ok((deposit, floor)) => {
                    &&& spec_add_liquidity(
                        spec_unlock(self@),
                        ctx,
                        token0,
                        token1,
                        amount0@,
                        amount1@,
                    ) is Ok
                    &&& floor@ == spec_floor_after_deposit(self@.min_liquidity)
                    &&& deposit == (LiquidityDeposit {
                        provider: ctx.sender,
                        pull0: Some(
                            TransferFrom {
                                token: token0,
                                from: ctx.sender,
                                to: ctx.contract,
                                amount: amount0,
                            },
                        ),
                        pull1: Some(
                            TransferFrom {
                                token: token1,
                                from: ctx.sender,
                                to: ctx.contract,
                                amount: amount1,
                            },
                        ),
                        amount0,
                        amount1,
                        new_reserve0: deposit.new_reserve0,
                        new_reserve1: deposit.new_reserve1,
                    })
                    &&& deposit.new_reserve0@ == self@.reserves0 + amount0@
                    &&& deposit.new_reserve1@ == self@.reserves1 + amount1@
                },
                Err(e) => spec_add_liquidity(
                    spec_unlock(self@),
                    ctx,
                    token0,
                    token1,
                    amount0@,
                    amount1@,
                ) == Err::<DexState, OakError>(e),
            },
    {
        if token0.is_zero() || token1.is_zero() {
            return Err(OakError::InvalidAddress);
        }
        if amount0.is_zero() {
            return Err(OakError::Amount0Zero);
        }
        if amount1.is_zero() {
            return Err(OakError::Amount1Zero);
        }
        if self.paused {
            return Err(OakError::Paused);
        }
        let min_liquidity = self.min_liquidity;
        let new_reserve0 = match self.reserves0.checked_add(amount0) {
            Some(v) => v,
            None => {
                return Err(OakError::Reserve0Overflow);
            },
        };
        let new_reserve1 = match self.reserves1.checked_add(amount1) {
            Some(v) => v,
            None => {
                return Err(OakError::Reserve1Overflow);
            },
        };
        let total_liquidity = match new_reserve0.checked_add(new_reserve1) {
            Some(v) => v,
            None => {
                return Err(OakError::LiquidityOverflow);
            },
        };
        let floor = if min_liquidity.is_zero() {
            let first_floor = as_u256(MINIMUM_LIQUIDITY);
            if total_liquidity.lt(&first_floor) {
                return Err(OakError::InsufficientLiquidity);
            }
            first_floor
        } else {
            if new_reserve0.lt(&min_liquidity) || new_reserve1.lt(&min_liquidity) {
                return Err(OakError::InsufficientLiquidity);
            }
            min_liquidity
        };
        let pull0 = match safe_transfer_from(token0, ctx.sender, ctx.contract, amount0) {
            Ok(call) => call,
            Err(e) => {
                return Err(e);
            },
        };
        let pull1 = match safe_transfer_from(token1, ctx.sender, ctx.contract, amount1) {
            Ok(call) => call,
            Err(e) => {
                return Err(e);
            },
        };
        Ok(
            (
                LiquidityDeposit {
                    provider: ctx.sender,
                    pull0,
                    pull1,
                    amount0,
                    amount1,
                    new_reserve0,
                    new_reserve1,
                },
                floor,
            ),
        )
    }

    /// Books a deposit whose tokens have arrived: sets the reserves,
    /// releases the guard and gives the record of the deposit.
    pub fn finish_add_liquidity(&mut self, deposit: &LiquidityDeposit) -> (log: Log)
        ensures
            final(self)@ == spec_finish_add_liquidity(
                old(self)@,
                deposit.new_reserve0@,
                deposit.new_reserve1@,
            ),
            log@ == spec_add_liquidity_log(deposit.provider, deposit.amount0@, deposit.amount1@),
    {
        self.reserves0 = deposit.new_reserve0;
        self.reserves1 = deposit.new_reserve1;
        unlock_reentrancy_guard(self);
        emit_add_liquidity(deposit.provider, deposit.amount0, deposit.amount1)
    }
}

} // verus!
