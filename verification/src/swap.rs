//! The swap engine: revealing a commitment and trading against the pool.
//!
//! A reveal checks the caller's commitment, prices the trade on the
//! constant-product curve, and updates the reserves, the volume counters and
//! the accrued fees. It hands back the two token transfers that settle the
//! trade; the guard stays held until the caller has had them performed and
//! releases it.

use crate::address::Address;
use crate::commit::spec_reveal_check;
use crate::constants::FEE_DENOMINATOR;
use crate::errors::{OakError, OakResult};
use crate::events::{emit_reveal_swap, spec_reveal_swap_log, Log};
use crate::logic::{
    commit_hash_word,
    compute_commit_hash,
    compute_fee_split,
    get_amount_out_with_fee,
    lock_reentrancy_guard,
    spec_compute_fee_split,
    spec_get_amount_out_with_fee,
    unlock_reentrancy_guard,
};
use crate::state::{spec_unlock, transition, CallContext, Commitment, DexState, OakDEX};
use crate::token::{safe_transfer, safe_transfer_from, Transfer, TransferFrom};
use crate::uint::{u256_max, U256};
use vstd::prelude::*;

verus! {

/// What a successful reveal leaves to be done, and what it did.
#[derive(Clone, Copy, Debug, PartialEq, Eq)]
pub struct SwapSettlement {
    /// The account that trades.
    pub trader: Address,
    /// The transfer of the input from the trader to the exchange.
    pub pull: Option<TransferFrom>,
    /// The transfer of the output from the exchange to the trader.
    pub push: Option<Transfer>,
    /// The amount of token0 that the trader pays.
    pub amount_in: U256,
    /// The amount of token1 that the trader receives.
    pub amount_out: U256,
    /// The part of the fee that accrued to the treasury.
    pub treasury_fee: U256,
    /// The part of the fee that accrued to the liquidity providers.
    pub lp_fee: U256,
}

/// The values that a revealed trade writes to the state.
struct SwapBooking {
    reserve0: U256,
    reserve1: U256,
    volume0: U256,
    volume1: U256,
    treasury_fees: U256,
    lp_fees: U256,
    settlement: SwapSettlement,
}

impl SwapBooking {
    /// The state that writing the booking for `trader` to `pre` gives.
    spec fn applied_to(self, pre: DexState, trader: Address) -> DexState {
        DexState {
            reserves0: self.reserve0@,
            reserves1: self.reserve1@,
            total_volume_token0: self.volume0@,
            total_volume_token1: self.volume1@,
            accrued_treasury_fees_token0: self.treasury_fees@,
            accrued_lp_fees_token0: self.lp_fees@,
            commitments: pre.commitments.insert(trader, Commitment::spec_empty()),
            locked: true,
            ..pre
        }
    }
}

/// The state after a priced trade is booked, or the reason it cannot be.
///
/// The trader's commitment is cleared, the reserves move by the two amounts,
/// the volumes and the accrued fees grow, and the guard is held.
pub open spec fn spec_book_swap(
    pre: DexState,
    ctx: CallContext,
    amount_in: nat,
    amount_out: nat,
    treasury_fee: nat,
    lp_fee: nat,
) -> Result<DexState, OakError> {
    if pre.reserves0 + amount_in > u256_max() {
        Err(OakError::Reserve0Overflow)
    } else if amount_out > pre.reserves1 {
        Err(OakError::InsufficientLiquidity)
    } else if pre.reserves0 + amount_in < pre.min_liquidity || pre.reserves1 - amount_out
        < pre.min_liquidity {
        Err(OakError::InsufficientLiquidity)
    } else if pre.total_volume_token0 + amount_in > u256_max() || pre.total_volume_token1
        + amount_out > u256_max() {
        Err(OakError::VolumeOverflow)
    } else if pre.accrued_treasury_fees_token0 + treasury_fee > u256_max()
        || pre.accrued_lp_fees_token0 + lp_fee > u256_max() {
        Err(OakError::Overflow)
    } else if ctx.sender == Address::spec_zero() || ctx.contract == Address::spec_zero() {
        Err(OakError::InvalidAddress)
    } else {
        Ok(
            DexState {
                reserves0: pre.reserves0 + amount_in,
                reserves1: (pre.reserves1 - amount_out) as nat,
                total_volume_token0: pre.total_volume_token0 + amount_in,
                total_volume_token1: pre.total_volume_token1 + amount_out,
                accrued_treasury_fees_token0: pre.accrued_treasury_fees_token0 + treasury_fee,
                accrued_lp_fees_token0: pre.accrued_lp_fees_token0 + lp_fee,
                commitments: pre.commitments.insert(ctx.sender, Commitment::spec_empty()),
                locked: true,
                ..pre
            },
        )
    }
}

/// The state after the caller reveals a trade of `amount_in` of token0 for
/// at least `min_amount_out` of token1, or the first reason the reveal is
/// refused. `computed_hash` is the hash of the revealed values.
pub open spec fn spec_reveal_swap(
    pre: DexState,
    ctx: CallContext,
    token0: Address,
    token1: Address,
    amount_in: nat,
    computed_hash: nat,
    min_amount_out: nat,
) -> Result<DexState, OakError> {
    if pre.locked {
        Err(OakError::ReentrantCall)
    } else if token0 == Address::spec_zero() || token1 == Address::spec_zero() {
        Err(OakError::InvalidAddress)
    } else if amount_in == 0 {
        Err(OakError::InsufficientInputAmount)
    } else if min_amount_out == 0 {
        Err(OakError::InsufficientOutputAmount)
    } else if pre.paused {
        Err(OakError::Paused)
    } else {
        match spec_reveal_check(pre.commitments[ctx.sender], computed_hash, ctx.block_number@) {
            Err(e) => Err(e),
            Ok(_) => match spec_get_amount_out_with_fee(
                amount_in,
                pre.reserves0,
                pre.reserves1,
                pre.protocol_fee_bps,
            ) {
                Err(e) => Err(e),
                Ok(amount_out) => if amount_out < min_amount_out {
                    Err(OakError::InsufficientOutputAmount)
                } else {
                    match spec_compute_fee_split(amount_in, pre.protocol_fee_bps) {
                        Err(e) => Err(e),
                        Ok(split) => spec_book_swap(
                            pre,
                            ctx,
                            amount_in,
                            amount_out,
                            split.1,
                            split.2,
                        ),
                    }
                },
            },
        }
    }
}

/// What a reveal returns and does to the state.
///
/// The state changes as [`spec_reveal_swap`] says; on an error it does not
/// change. On success the settlement holds the two transfers and the amounts
/// of the trade, the output meets the caller's minimum, the product of the
/// reserves has not gone down, and both reserves are at or above the floor.
pub open spec fn reveal_swap_outcome(
    pre: DexState,
    post: DexState,
    ctx: CallContext,
    token0: Address,
    token1: Address,
    amount_in: U256,
    computed_hash: nat,
    min_amount_out: nat,
    r: OakResult<SwapSettlement>,
) -> bool {
    &&& transition(
        pre,
        post,
        r,
        spec_reveal_swap(pre, ctx, token0, token1, amount_in@, computed_hash, min_amount_out),
    )
    &&& r matches Ok(s) ==> {
        &&& s.trader == ctx.sender
        &&& s.pull == Some(
            TransferFrom { token: token0, from: ctx.sender, to: ctx.contract, amount: amount_in },
        )
        &&& s.push == Some(Transfer { token: token1, to: ctx.sender, amount: s.amount_out })
        &&& s.amount_in == amount_in
        &&& spec_get_amount_out_with_fee(
            amount_in@,
            pre.reserves0,
            pre.reserves1,
            pre.protocol_fee_bps,
        ) == Ok::<nat, OakError>(s.amount_out@)
        &&& spec_compute_fee_split(amount_in@, pre.protocol_fee_bps) matches Ok(split)
            && split.1 == s.treasury_fee@ && split.2 == s.lp_fee@
        &&& s.amount_out@ >= min_amount_out
        &&& post.reserves0 * post.reserves1 >= pre.reserves0 * pre.reserves1
        &&& post.reserves0 >= post.min_liquidity
        &&& post.reserves1 >= post.min_liquidity
    }
}

/// A priced swap never pays out more than the output reserve, and leaves
/// the product of the reserves at least as large as it was.
pub proof fn lemma_swap_keeps_product(
    amount_in: nat,
    reserve_in: nat,
    reserve_out: nat,
    fee_bps: nat,
)
    requires
        spec_get_amount_out_with_fee(amount_in, reserve_in, reserve_out, fee_bps) is Ok,
    ensures
        ({
            let amount_out = spec_get_amount_out_with_fee(
                amount_in,
                reserve_in,
                reserve_out,
                fee_bps,
            )->Ok_0;
            &&& amount_out <= reserve_out
            &&& (reserve_in + amount_in) * (reserve_out - amount_out) >= reserve_in * reserve_out
        }),
{
    let keep = (FEE_DENOMINATOR - fee_bps) as nat;
    let with_fee = amount_in * keep;
    let numerator = with_fee * reserve_out;
    let denominator = reserve_in * (FEE_DENOMINATOR as nat) + with_fee;
    let amount_out = numerator / denominator;
    let a = amount_in as int;
    let x = reserve_in as int;
    let y = reserve_out as int;
    let k = keep as int;
    let w = with_fee as int;
    let d = denominator as int;
    let o = amount_out as int;
    assert(o * d <= w * y) by (nonlinear_arith)
        requires
            d > 0,
            w * y >= 0,
            o == (w * y) / d,
    ;
    assert(o <= y) by (nonlinear_arith)
        requires
            o * d <= w * y,
            0 <= w <= d,
            d > 0,
            y >= 0,
            o >= 0,
    ;
    assert(o * (x + a) * 10000 <= a * y * 10000) by (nonlinear_arith)
        requires
            o * d <= w * y,
            d == x * 10000 + w,
            w == a * k,
            0 <= k <= 10000,
            0 <= o <= y,
            a >= 0,
            x >= 0,
    ;
    assert((x + a) * (y - o) >= x * y) by (nonlinear_arith)
        requires
            o * (x + a) * 10000 <= a * y * 10000,
    ;
}

/// A successful reveal leaves the product of the reserves at least as large
/// as it was.
pub proof fn lemma_reveal_swap_keeps_product(
    pre: DexState,
    ctx: CallContext,
    token0: Address,
    token1: Address,
    amount_in: nat,
    computed_hash: nat,
    min_amount_out: nat,
)
    requires
        spec_reveal_swap(pre, ctx, token0, token1, amount_in, computed_hash, min_amount_out) is Ok,
    ensures
        ({
            let post = spec_reveal_swap(
                pre,
                ctx,
                token0,
                token1,
                amount_in,
                computed_hash,
                min_amount_out,
            )->Ok_0;
            post.reserves0 * post.reserves1 >= pre.reserves0 * pre.reserves1
        }),
{
    lemma_swap_keeps_product(amount_in, pre.reserves0, pre.reserves1, pre.protocol_fee_bps);
}

/// A commitment cannot be replayed: once a reveal has succeeded and the
/// guard is released, the same account's reveal of the same trade, in
/// whatever block, finds no commitment.
pub proof fn lemma_reveal_cannot_be_replayed(
    pre: DexState,
    ctx: CallContext,
    again: CallContext,
    token0: Address,
    token1: Address,
    amount_in: nat,
    computed_hash: nat,
    min_amount_out: nat,
)
    requires
        spec_reveal_swap(pre, ctx, token0, token1, amount_in, computed_hash, min_amount_out) is Ok,
        again.sender == ctx.sender,
    ensures
        ({
            let post = spec_reveal_swap(
                pre,
                ctx,
                token0,
                token1,
                amount_in,
                computed_hash,
                min_amount_out,
            )->Ok_0;
            spec_reveal_swap(
                spec_unlock(post),
                again,
                token0,
                token1,
                amount_in,
                computed_hash,
                min_amount_out,
            ) == Err::<DexState, OakError>(OakError::CommitNotFound)
        }),
{
}

impl OakDEX {
    /// Reveals the caller's committed trade, given the hash of the revealed
    /// values, and books it.
    ///
    /// The checks come in this order: the guard, the token addresses, the
    /// two amounts, the pause, the commitment (found, hash, expiry, delay),
    /// the price, the caller's minimum, the fee split, the reserves and
    /// their floor, the volume counters, the accrued fees, and the parties
    /// of the transfers. The first that fails gives the error, and the state
    /// is then left as it was, the guard released.
    pub fn reveal_swap_with_hash(
        &mut self,
        ctx: CallContext,
        token0: Address,
        token1: Address,
        amount_in: U256,
        computed_hash: U256,
        min_amount_out: U256,
    ) -> (r: OakResult<SwapSettlement>)
        ensures
            reveal_swap_outcome(
                old(self)@,
                final(self)@,
                ctx,
                token0,
                token1,
                amount_in,
                computed_hash@,
                min_amount_out@,
                r,
            ),
    {
        match lock_reentrancy_guard(self) {
            Err(e) => {
                return Err(e);
            },
            Ok(_) => {},
        }
        assert(spec_unlock(self@) == old(self)@);
        match self.price_reveal(ctx, token0, token1, amount_in, computed_hash, min_amount_out) {
            Ok(booking) => {
                self.commitments.set(ctx.sender, Commitment::empty());
                self.reserves0 = booking.reserve0;
                self.reserves1 = booking.reserve1;
                self.total_volume_token0 = booking.volume0;
                self.total_volume_token1 = booking.volume1;
                self.accrued_treasury_fees_token0 = booking.treasury_fees;
                self.accrued_lp_fees_token0 = booking.lp_fees;
                Ok(booking.settlement)
            },
            Err(e) => {
                unlock_reentrancy_guard(self);
                Err(e)
            },
        }
    }

    /// Ends a reveal whose transfers went through: releases the guard and
    /// gives the record of the swap.
    pub fn finish_reveal_swap(&mut self, settlement: &SwapSettlement) -> (log: Log)
        ensures
            final(self)@ == spec_unlock(old(self)@),
            log@ == spec_reveal_swap_log(
                settlement.trader,
                settlement.amount_in@,
                settlement.amount_out@,
                settlement.treasury_fee@,
                settlement.lp_fee@,
            ),
    {
        unlock_reentrancy_guard(self);
        emit_reveal_swap(
            settlement.trader,
            settlement.amount_in,
            settlement.amount_out,
            settlement.treasury_fee,
            settlement.lp_fee,
        )
    }

    /// Checks and prices a reveal while the guard is held, and computes what
    /// booking it writes.
    fn price_reveal(
        &self,
        ctx: CallContext,
        token0: Address,
        token1: Address,
        amount_in: U256,
        computed_hash: U256,
        min_amount_out: U256,
    ) -> (r: OakResult<SwapBooking>)
        ensures
            match r {
                Ok(booking) => {
                    let post = booking.applied_to(self@, ctx.sender);
                    reveal_swap_outcome(
                        spec_unlock(self@),
                        post,
                        ctx,
                        token0,
                        token1,
                        amount_in,
                        computed_hash@,
                        min_amount_out@,
                        Ok::<SwapSettlement, OakError>(booking.settlement),
                    )
                },
                Err(e) => spec_reveal_swap(
                    spec_unlock(self@),
                    ctx,
                    token0,
                    token1,
                    amount_in@,
                    computed_hash@,
                    min_amount_out@,
                ) == Err::<DexState, OakError>(e),
            },
    {
        if token0.is_zero() || token1.is_zero() {
            return Err(OakError::InvalidAddress);
        }
        if amount_in.is_zero() {
            return Err(OakError::InsufficientInputAmount);
        }
        if min_amount_out.is_zero() {
            return Err(OakError::InsufficientOutputAmount);
        }
        if self.paused {
            return Err(OakError::Paused);
        }
        let commitment = self.commitments.get(ctx.sender);
        match commitment.reveal_check_with_hash(computed_hash, ctx.block_number) {
            Err(e) => {
                return Err(e);
            },
            Ok(_) => {},
        }
        let reserve0 = self.reserves0;
        let reserve1 = self.reserves1;
        let fee_bps = self.protocol_fee_bps;
        let amount_out = match get_amount_out_with_fee(amount_in, reserve0, reserve1, fee_bps) {
            Ok(out) => out,
            Err(e) => {
                return Err(e);
            },
        };
        if amount_out.lt(&min_amount_out) {
            return Err(OakError::InsufficientOutputAmount);
        }
        let (_effective_in, treasury_fee, lp_fee) = match compute_fee_split(amount_in, fee_bps) {
            Ok(split) => split,
            Err(e) => {
                return Err(e);
            },
        };
        let new_reserve0 = match reserve0.checked_add(amount_in) {
            Some(v) => v,
            None => {
                return Err(OakError::Reserve0Overflow);
            },
        };
        let new_reserve1 = match reserve1.checked_sub(amount_out) {
            Some(v) => v,
            None => {
                return Err(OakError::InsufficientLiquidity);
            },
        };
        if new_reserve0.lt(&self.min_liquidity) || new_reserve1.lt(&self.min_liquidity) {
            return Err(OakError::InsufficientLiquidity);
        }
        let new_volume0 = match self.total_volume_token0.checked_add(amount_in) {
            Some(v) => v,
            None => {
                return Err(OakError::VolumeOverflow);
            },
        };
        let new_volume1 = match self.total_volume_token1.checked_add(amount_out) {
            Some(v) => v,
            None => {
                return Err(OakError::VolumeOverflow);
            },
        };
        let new_treasury_fees = match self.accrued_treasury_fees_token0.checked_add(treasury_fee) {
            Some(v) => v,
            None => {
                return Err(OakError::Overflow);
            },
        };
        let new_lp_fees = match self.accrued_lp_fees_token0.checked_add(lp_fee) {
            Some(v) => v,
            None => {
                return Err(OakError::Overflow);
            },
        };
        let pull = match safe_transfer_from(token0, ctx.sender, ctx.contract, amount_in) {
            Ok(call) => call,
            Err(e) => {
                return Err(e);
            },
        };
        let push = match safe_transfer(token1, ctx.sender, amount_out) {
            Ok(call) => call,
            Err(e) => {
                return Err(e);
            },
        };
        proof {
            lemma_swap_keeps_product(amount_in@, reserve0@, reserve1@, fee_bps@);
        }
        Ok(
            SwapBooking {
                reserve0: new_reserve0,
                reserve1: new_reserve1,
                volume0: new_volume0,
                volume1: new_volume1,
                treasury_fees: new_treasury_fees,
                lp_fees: new_lp_fees,
                settlement: SwapSettlement {
                    trader: ctx.sender,
                    pull,
                    push,
                    amount_in,
                    amount_out,
                    treasury_fee,
                    lp_fee,
                },
            },
        )
    }

    /// Reveals the caller's committed trade of `amount_in` of token0 for at
    /// least `min_amount_out` of token1, and books it.
    ///
    /// `salt` is the second value that the caller committed to. On success
    /// the guard is held: the caller has the two transfers of the settlement
    /// performed and then calls [`OakDEX::finish_reveal_swap`].
    pub fn reveal_swap(
        &mut self,
        ctx: CallContext,
        token0: Address,
        token1: Address,
        amount_in: U256,
        salt: U256,
        min_amount_out: U256,
    ) -> (r: OakResult<SwapSettlement>)
        ensures
            reveal_swap_outcome(
                old(self)@,
                final(self)@,
                ctx,
                token0,
                token1,
                amount_in,
                commit_hash_word(amount_in@, salt@),
                min_amount_out@,
                r,
            ),
    {
        let computed_hash = U256::from_be_bytes(compute_commit_hash(amount_in, salt));
        self.reveal_swap_with_hash(ctx, token0, token1, amount_in, computed_hash, min_amount_out)
    }
}

} // verus!
