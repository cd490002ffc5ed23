//! Flash swaps: lending from the reserves within one call.
//!
//! A flash swap runs in three steps around the borrower. The first checks
//! the request and says what to lend. The second, after the tokens went out,
//! computes what is owed, fee included. The third, after the borrower's
//! callback returned, looks at the exchange's token balances, checks the
//! repayment and the product of the reserves, and books the result.

use crate::address::Address;
use crate::constants::{as_u256, FEE_DENOMINATOR};
use crate::crypto::{keccak, keccak256};
use crate::errors::{OakError, OakResult};
use crate::events::{emit_flash_swap, spec_flash_swap_log, Log};
use crate::logic::{
    append_bytes,
    compute_fee_split,
    lock_reentrancy_guard,
    spec_compute_fee_split,
    spec_total_fee,
    unlock_reentrancy_guard,
};
use crate::state::{guarded_step, spec_unlock, transition, CallContext, DexState, OakDEX};
use crate::token::{safe_transfer, Transfer};
use crate::uint::{be_word, u256_max, U256};
use vstd::prelude::*;
use vstd::string::*;

verus! {

/// The signature of the callback that a borrower has to offer.
pub const FLASH_CALLBACK_SIGNATURE: &'static str = "oakFlashSwapCallback(uint256,uint256,bytes)";

/// A flash loan that passed its checks: what goes out, and what the pool
/// looked like when it was granted.
#[derive(Clone, Copy, Debug, PartialEq, Eq)]
pub struct FlashLoan {
    /// The account that borrows.
    pub borrower: Address,
    /// The first token of the pool.
    pub token0: Address,
    /// The second token of the pool.
    pub token1: Address,
    /// The transfer of token0 to the borrower, if any is lent.
    pub lend0: Option<Transfer>,
    /// The transfer of token1 to the borrower, if any is lent.
    pub lend1: Option<Transfer>,
    /// The amount of token0 lent.
    pub amount0_out: U256,
    /// The amount of token1 lent.
    pub amount1_out: U256,
    /// The reserve of token0 less the amount lent.
    pub reserve0_after_lend: U256,
    /// The reserve of token1 less the amount lent.
    pub reserve1_after_lend: U256,
    /// The product of the reserves before the loan.
    pub k_before: U256,
    /// The fee in basis points at the time of the loan.
    pub fee_bps: U256,
}

/// What the borrower of a flash loan owes.
#[derive(Clone, Copy, Debug, PartialEq, Eq)]
pub struct FlashDebt {
    /// The fee on the token0 lent.
    pub fee0: U256,
    /// The fee on the token1 lent.
    pub fee1: U256,
    /// The amount of token0 to be paid back, fee included.
    pub amount0_owed: U256,
    /// The amount of token1 to be paid back, fee included.
    pub amount1_owed: U256,
}

/// The values that a settled flash swap writes to the state.
struct FlashSettlement {
    reserve0: U256,
    reserve1: U256,
    volume0: U256,
    volume1: U256,
    treasury_fees: U256,
    lp_fees: U256,
}

/// The state after a flash loan is granted, or the first reason it is
/// refused. Granting it only takes the guard.
pub open spec fn spec_flash_swap(
    pre: DexState,
    ctx: CallContext,
    token0: Address,
    token1: Address,
    amount0_out: nat,
    amount1_out: nat,
) -> Result<DexState, OakError> {
    if pre.locked {
        Err(OakError::ReentrantCall)
    } else if token0 == Address::spec_zero() || token1 == Address::spec_zero() {
        Err(OakError::InvalidAddress)
    } else if amount0_out == 0 && amount1_out == 0 {
        Err(OakError::InsufficientInputAmount)
    } else if pre.paused {
        Err(OakError::Paused)
    } else if pre.reserves0 * pre.reserves1 > u256_max() {
        Err(OakError::Overflow)
    } else if amount0_out > pre.reserves0 || amount1_out > pre.reserves1 {
        Err(OakError::InsufficientLiquidity)
    } else if pre.reserves0 - amount0_out < pre.min_liquidity || pre.reserves1 - amount1_out
        < pre.min_liquidity {
        Err(OakError::InsufficientLiquidity)
    } else if ctx.sender == Address::spec_zero() {
        Err(OakError::InvalidAddress)
    } else {
        Ok(DexState { locked: true, ..pre })
    }
}

/// The transfer that lends `amount` of `token` to `to`; none for nothing.
pub open spec fn spec_lend(token: Address, to: Address, amount: U256) -> Option<Transfer> {
    if amount@ == 0 {
        None
    } else {
        Some(Transfer { token, to, amount })
    }
}

/// Whether what is owed on a loan can be computed: neither fee product and
/// neither sum leaves 256 bits.
pub open spec fn spec_flash_debt_fits(amount0_out: nat, amount1_out: nat, fee_bps: nat) -> bool {
    &&& amount0_out * fee_bps <= u256_max()
    &&& amount1_out * fee_bps <= u256_max()
    &&& amount0_out + spec_total_fee(amount0_out, fee_bps) <= u256_max()
    &&& amount1_out + spec_total_fee(amount1_out, fee_bps) <= u256_max()
}

/// Whether the exchange's balances cover the lent-down reserves and what is
/// owed, and if not, why.
pub open spec fn spec_repayment_check(
    loan: FlashLoan,
    debt: FlashDebt,
    balance0: nat,
    balance1: nat,
) -> Result<(), OakError> {
    let expected0 = loan.reserve0_after_lend@ + debt.amount0_owed@;
    let expected1 = loan.reserve1_after_lend@ + debt.amount1_owed@;
    if expected0 > u256_max() || expected1 > u256_max() {
        Err(OakError::Overflow)
    } else if balance0 < expected0 || balance1 < expected1 {
        Err(OakError::InsufficientLiquidity)
    } else {
        Ok(())
    }
}

/// The least product of the reserves that settles a loan taken at product
/// `k_before`: `k_before` raised by the fee rate, rounded down.
pub open spec fn spec_minimum_product(k_before: nat, fee_bps: nat) -> nat {
    k_before * (FEE_DENOMINATOR as nat + fee_bps) / (FEE_DENOMINATOR as nat)
}

/// Whether the product of the new reserves reaches the minimum, and if not,
/// why.
pub open spec fn spec_product_check(k_before: nat, fee_bps: nat, reserve0: nat, reserve1: nat)
    -> Result<(), OakError> {
    let multiplier = FEE_DENOMINATOR as nat + fee_bps;
    if reserve0 * reserve1 > u256_max() || multiplier > u256_max() || k_before * multiplier
        > u256_max() {
        Err(OakError::Overflow)
    } else if reserve0 * reserve1 < spec_minimum_product(k_before, fee_bps) {
        Err(OakError::InsufficientLiquidity)
    } else {
        Ok(())
    }
}

/// The state after a repaid flash loan is booked, or the reason it cannot
/// be: the balances become the reserves, the volumes grow by the amounts
/// lent, the split of the fee on token0 accrues, and the guard is released.
/// The fee on token1 accrues to nobody.
pub open spec fn spec_book_flash_swap(
    pre: DexState,
    loan: FlashLoan,
    debt: FlashDebt,
    balance0: nat,
    balance1: nat,
) -> Result<DexState, OakError> {
    let booked = DexState {
        reserves0: balance0,
        reserves1: balance1,
        total_volume_token0: pre.total_volume_token0 + loan.amount0_out@,
        total_volume_token1: pre.total_volume_token1 + loan.amount1_out@,
        locked: false,
        ..pre
    };
    if booked.total_volume_token0 > u256_max() || booked.total_volume_token1 > u256_max() {
        Err(OakError::VolumeOverflow)
    } else if debt.fee0@ == 0 {
        Ok(booked)
    } else {
        match spec_compute_fee_split(loan.amount0_out@, loan.fee_bps@) {
            Err(e) => Err(e),
            Ok(split) => if pre.accrued_treasury_fees_token0 + split.1 > u256_max()
                || pre.accrued_lp_fees_token0 + split.2 > u256_max() {
                Err(OakError::Overflow)
            } else {
                Ok(
                    DexState {
                        accrued_treasury_fees_token0: pre.accrued_treasury_fees_token0 + split.1,
                        accrued_lp_fees_token0: pre.accrued_lp_fees_token0 + split.2,
                        ..booked
                    },
                )
            },
        }
    }
}

/// The state after a flash loan is settled with the given token balances of
/// the exchange, or the first reason it cannot be: the repayment, then the
/// product of the reserves, then the booking.
pub open spec fn spec_flash_swap_settle(
    pre: DexState,
    loan: FlashLoan,
    debt: FlashDebt,
    balance0: nat,
    balance1: nat,
) -> Result<DexState, OakError> {
    match spec_repayment_check(loan, debt, balance0, balance1) {
        Err(e) => Err(e),
        Ok(_) => match spec_product_check(loan.k_before@, loan.fee_bps@, balance0, balance1) {
            Err(e) => Err(e),
            Ok(_) => spec_book_flash_swap(pre, loan, debt, balance0, balance1),
        },
    }
}

/// The first four bytes of the hash of the callback's signature.
pub open spec fn spec_flash_callback_selector() -> Seq<u8> {
    keccak256(FLASH_CALLBACK_SIGNATURE.spec_bytes()).subrange(0, 4)
}

/// The number of zero bytes that fill `len` bytes up to a multiple of 32.
pub open spec fn spec_padding(len: nat) -> nat {
    ((32 - len % 32) % 32) as nat
}

/// The call that tells a borrower what it owes: the selector, the two
/// amounts as 32-byte words, the offset of the data (96), its length, the
/// data, and zeros up to the next multiple of 32 bytes.
pub open spec fn spec_encode_flash_callback(amount0_owed: nat, amount1_owed: nat, data: Seq<u8>)
    -> Seq<u8> {
    spec_flash_callback_selector() + be_word(amount0_owed) + be_word(amount1_owed) + be_word(96)
        + be_word(data.len()) + data + Seq::new(spec_padding(data.len()), |i: int| 0u8)
}

/// Encodes the call of the borrower's callback with what is owed and the
/// borrower's own data.
pub fn encode_flash_callback(amount0_owed: U256, amount1_owed: U256, data: &[u8]) -> (call_data:
    Vec<u8>)
    ensures
        call_data@ == spec_encode_flash_callback(amount0_owed@, amount1_owed@, data@),
{
    let digest = keccak(FLASH_CALLBACK_SIGNATURE.as_bytes());
    let mut call_data: Vec<u8> = Vec::new();
    call_data.push(digest[0]);
    call_data.push(digest[1]);
    call_data.push(digest[2]);
    call_data.push(digest[3]);
    assert(call_data@ =~= spec_flash_callback_selector());
    let word0 = amount0_owed.to_be_bytes();
    append_bytes(&mut call_data, word0.as_slice());
    let word1 = amount1_owed.to_be_bytes();
    append_bytes(&mut call_data, word1.as_slice());
    let offset = as_u256(96).to_be_bytes();
    append_bytes(&mut call_data, offset.as_slice());
    let length = as_u256(data.len() as u64).to_be_bytes();
    append_bytes(&mut call_data, length.as_slice());
    append_bytes(&mut call_data, data);
    let ghost unpadded = call_data@;
    let padding: usize = (32 - (data.len() % 32)) % 32;
    let mut i: usize = 0;
    while i < padding
        invariant
            i <= padding,
            call_data@ == unpadded + Seq::new(i as nat, |j: int| 0u8),
        decreases padding - i,
    {
        call_data.push(0u8);
        i += 1;
        assert(call_data@ =~= unpadded + Seq::new(i as nat, |j: int| 0u8));
    }
    call_data
}

impl OakDEX {
    /// Grants the caller a flash loan of `amount0_out` of token0 and
    /// `amount1_out` of token1, at least one of them not zero.
    ///
    /// On success the guard is held and the result names the transfers that
    /// lend the tokens. The caller has them performed, then asks
    /// [`OakDEX::flash_swap_debt`] what is owed. On an error the state is
    /// left untouched.
    pub fn flash_swap(
        &mut self,
        ctx: CallContext,
        token0: Address,
        token1: Address,
        amount0_out: U256,
        amount1_out: U256,
    ) -> (r: OakResult<FlashLoan>)
        ensures
            transition(
                old(self)@,
                final(self)@,
                r,
                spec_flash_swap(old(self)@, ctx, token0, token1, amount0_out@, amount1_out@),
            ),
            r matches Ok(loan) ==> {
                &&& loan.borrower == ctx.sender
                &&& loan.token0 == token0
                &&& loan.token1 == token1
                &&& loan.lend0 == spec_lend(token0, ctx.sender, amount0_out)
                &&& loan.lend1 == spec_lend(token1, ctx.sender, amount1_out)
                &&& loan.amount0_out == amount0_out
                &&& loan.amount1_out == amount1_out
                &&& loan.reserve0_after_lend@ == old(self)@.reserves0 - amount0_out@
                &&& loan.reserve1_after_lend@ == old(self)@.reserves1 - amount1_out@
                &&& loan.k_before@ == old(self)@.reserves0 * old(self)@.reserves1
                &&& loan.fee_bps == old(self).protocol_fee_bps
            },
    {
        match lock_reentrancy_guard(self) {
            Err(e) => {
                return Err(e);
            },
            Ok(_) => {},
        }
        assert(spec_unlock(self@) == old(self)@);
        match self.grant_loan(ctx, token0, token1, amount0_out, amount1_out) {
            Ok(loan) => Ok(loan),
            Err(e) => {
                unlock_reentrancy_guard(self);
                Err(e)
            },
        }
    }

    /// Checks a request for a flash loan while the guard is held.
    fn grant_loan(
        &self,
        ctx: CallContext,
        token0: Address,
        token1: Address,
        amount0_out: U256,
        amount1_out: U256,
    ) -> (r: OakResult<FlashLoan>)
        ensures
            match r {
                Ok(loan) => {
                    &&& spec_flash_swap(
                        spec_unlock(self@),
                        ctx,
                        token0,
                        token1,
                        amount0_out@,
                        amount1_out@,
                    ) is Ok
                    &&& loan.borrower == ctx.sender
                    &&& loan.token0 == token0
                    &&& loan.token1 == token1
                    &&& loan.lend0 == spec_lend(token0, ctx.sender, amount0_out)
                    &&& loan.lend1 == spec_lend(token1, ctx.sender, amount1_out)
                    &&& loan.amount0_out == amount0_out
                    &&& loan.amount1_out == amount1_out
                    &&& loan.reserve0_after_lend@ == self@.reserves0 - amount0_out@
                    &&& loan.reserve1_after_lend@ == self@.reserves1 - amount1_out@
                    &&& loan.k_before@ == self@.reserves0 * self@.reserves1
                    &&& loan.fee_bps == self.protocol_fee_bps
                },
                Err(e) => spec_flash_swap(
                    spec_unlock(self@),
                    ctx,
                    token0,
                    token1,
                    amount0_out@,
                    amount1_out@,
                ) == Err::<DexState, OakError>(e),
            },
    {
        if token0.is_zero() || token1.is_zero() {
            return Err(OakError::InvalidAddress);
        }
        if amount0_out.is_zero() && amount1_out.is_zero() {
            return Err(OakError::InsufficientInputAmount);
        }
        if self.paused {
            return Err(OakError::Paused);
        }
        let reserve0_before = self.reserves0;
        let reserve1_before = self.reserves1;
        let fee_bps = self.protocol_fee_bps;
        let k_before = match reserve0_before.checked_mul(reserve1_before) {
            Some(v) => v,
            None => {
                return Err(OakError::Overflow);
            },
        };
        if amount0_out.gt(&reserve0_before) || amount1_out.gt(&reserve1_before) {
            return Err(OakError::InsufficientLiquidity);
        }
        let reserve0_after_lend = match reserve0_before.checked_sub(amount0_out) {
            Some(v) => v,
            None => {
                return Err(OakError::InsufficientLiquidity);
            },
        };
        let reserve1_after_lend = match reserve1_before.checked_sub(amount1_out) {
            Some(v) => v,
            None => {
                return Err(OakError::InsufficientLiquidity);
            },
        };
        if reserve0_after_lend.lt(&self.min_liquidity) || reserve1_after_lend.lt(
            &self.min_liquidity,
        ) {
            return Err(OakError::InsufficientLiquidity);
        }
        let lend0 = if !amount0_out.is_zero() {
            match safe_transfer(token0, ctx.sender, amount0_out) {
                Ok(call) => call,
                Err(e) => {
                    return Err(e);
                },
            }
        } else {
            None
        };
        let lend1 = if !amount1_out.is_zero() {
            match safe_transfer(token1, ctx.sender, amount1_out) {
                Ok(call) => call,
                Err(e) => {
                    return Err(e);
                },
            }
        } else {
            None
        };
        Ok(
            FlashLoan {
                borrower: ctx.sender,
                token0,
                token1,
                lend0,
                lend1,
                amount0_out,
                amount1_out,
                reserve0_after_lend,
                reserve1_after_lend,
                k_before,
                fee_bps,
            },
        )
    }

    /// Computes what the borrower of `loan` owes: on each side the amount
    /// lent and the fee on it, rounded down.
    ///
    /// Fails with `Overflow` where a product or a sum leaves 256 bits, and
    /// then releases the guard. Otherwise the state is left as it is, and
    /// the caller invokes the borrower's callback with what is owed, reads
    /// the exchange's token balances and calls
    /// [`OakDEX::flash_swap_settle`].
    pub fn flash_swap_debt(&mut self, loan: &FlashLoan) -> (r: OakResult<FlashDebt>)
        ensures
            match r {
                Ok(debt) => {
                    &&& spec_flash_debt_fits(
                        loan.amount0_out@,
                        loan.amount1_out@,
                        loan.fee_bps@,
                    )
                    &&& debt.fee0@ == spec_total_fee(loan.amount0_out@, loan.fee_bps@)
                    &&& debt.fee1@ == spec_total_fee(loan.amount1_out@, loan.fee_bps@)
                    &&& debt.amount0_owed@ == loan.amount0_out@ + debt.fee0@
                    &&& debt.amount1_owed@ == loan.amount1_out@ + debt.fee1@
                    &&& final(self)@ == old(self)@
                },
                Err(e) => {
                    &&& e == OakError::Overflow
                    &&& !spec_flash_debt_fits(
                        loan.amount0_out@,
                        loan.amount1_out@,
                        loan.fee_bps@,
                    )
                    &&& final(self)@ == spec_unlock(old(self)@)
                },
            },
    {
        match flash_debt(loan.amount0_out, loan.amount1_out, loan.fee_bps) {
            Ok(debt) => Ok(debt),
            Err(e) => {
                unlock_reentrancy_guard(self);
                Err(e)
            },
        }
    }

    /// Settles `loan` after the borrower's callback, given the exchange's
    /// balances of the two tokens.
    ///
    /// On success the balances are the new reserves, the volumes and the
    /// accrued fees are booked, the product of the reserves is at least
    /// what it was before the loan, and the result is the record of the
    /// flash swap. On an error nothing is booked. Either way the guard is
    /// released.
    pub fn flash_swap_settle(
        &mut self,
        loan: &FlashLoan,
        debt: &FlashDebt,
        balance0_after: U256,
        balance1_after: U256,
    ) -> (r: OakResult<Log>)
        ensures
            guarded_step(
                old(self)@,
                final(self)@,
                r,
                spec_flash_swap_settle(old(self)@, *loan, *debt, balance0_after@, balance1_after@),
            ),
            r is Ok ==> final(self)@.reserves0 * final(self)@.reserves1 >= loan.k_before@,
            r matches Ok(log) ==> log@ == spec_flash_swap_log(
                loan.borrower,
                loan.token0,
                loan.token1,
                loan.amount0_out@,
                loan.amount1_out@,
                debt.fee0@,
                debt.fee1@,
            ),
    {
        match self.plan_flash_settlement(loan, debt, balance0_after, balance1_after) {
            Ok(settlement) => {
                self.reserves0 = settlement.reserve0;
                self.reserves1 = settlement.reserve1;
                self.total_volume_token0 = settlement.volume0;
                self.total_volume_token1 = settlement.volume1;
                self.accrued_treasury_fees_token0 = settlement.treasury_fees;
                self.accrued_lp_fees_token0 = settlement.lp_fees;
                unlock_reentrancy_guard(self);
                Ok(
                    emit_flash_swap(
                        loan.borrower,
                        loan.token0,
                        loan.token1,
                        loan.amount0_out,
                        loan.amount1_out,
                        debt.fee0,
                        debt.fee1,
                    ),
                )
            },
            Err(e) => {
                unlock_reentrancy_guard(self);
                Err(e)
            },
        }
    }

    /// Checks the repayment of `loan` and computes what settling it writes.
    fn plan_flash_settlement(
        &self,
        loan: &FlashLoan,
        debt: &FlashDebt,
        balance0_after: U256,
        balance1_after: U256,
    ) -> (r: OakResult<FlashSettlement>)
        ensures
            match r {
                Ok(s) => {
                    &&& spec_flash_swap_settle(
                        self@,
                        *loan,
                        *debt,
                        balance0_after@,
                        balance1_after@,
                    ) == Ok::<DexState, OakError>(s.applied_to(self@))
                    &&& s.reserve0@ * s.reserve1@ >= loan.k_before@
                },
                Err(e) => spec_flash_swap_settle(
                    self@,
                    *loan,
                    *debt,
                    balance0_after@,
                    balance1_after@,
                ) == Err::<DexState, OakError>(e),
            },
    {
        let (reserve0_after, reserve1_after) = match repaid_reserves(
            loan,
            debt,
            balance0_after,
            balance1_after,
        ) {
            Ok(reserves) => reserves,
            Err(e) => {
                return Err(e);
            },
        };
        match check_product(loan.k_before, loan.fee_bps, reserve0_after, reserve1_after) {
            Ok(_) => {},
            Err(e) => {
                return Err(e);
            },
        }
        self.book_flash_swap(loan, debt, reserve0_after, reserve1_after)
    }

    /// Computes the volumes and the accrued fees that a repaid loan leaves.
    fn book_flash_swap(
        &self,
        loan: &FlashLoan,
        debt: &FlashDebt,
        reserve0_after: U256,
        reserve1_after: U256,
    ) -> (r: OakResult<FlashSettlement>)
        ensures
            match r {
                Ok(s) => {
                    &&& spec_book_flash_swap(
                        self@,
                        *loan,
                        *debt,
                        reserve0_after@,
                        reserve1_after@,
                    ) == Ok::<DexState, OakError>(s.applied_to(self@))
                    &&& s.reserve0 == reserve0_after
                    &&& s.reserve1 == reserve1_after
                },
                Err(e) => spec_book_flash_swap(
                    self@,
                    *loan,
                    *debt,
                    reserve0_after@,
                    reserve1_after@,
                ) == Err::<DexState, OakError>(e),
            },
    {
        proof {
            self.total_volume_token0.lemma_bounded();
            self.total_volume_token1.lemma_bounded();
        }
        let volume0 = if !loan.amount0_out.is_zero() {
            match self.total_volume_token0.checked_add(loan.amount0_out) {
                Some(v) => v,
                None => {
                    return Err(OakError::VolumeOverflow);
                },
            }
        } else {
            self.total_volume_token0
        };
        let volume1 = if !loan.amount1_out.is_zero() {
            match self.total_volume_token1.checked_add(loan.amount1_out) {
                Some(v) => v,
                None => {
                    return Err(OakError::VolumeOverflow);
                },
            }
        } else {
            self.total_volume_token1
        };
        let mut treasury_fees = self.accrued_treasury_fees_token0;
        let mut lp_fees = self.accrued_lp_fees_token0;
        if !debt.fee0.is_zero() {
            let (_effective_in, treasury_fee0, lp_fee0) = match compute_fee_split(
                loan.amount0_out,
                loan.fee_bps,
            ) {
                Ok(split) => split,
                Err(e) => {
                    return Err(e);
                },
            };
            treasury_fees = match treasury_fees.checked_add(treasury_fee0) {
                Some(v) => v,
                None => {
                    return Err(OakError::Overflow);
                },
            };
            lp_fees = match lp_fees.checked_add(lp_fee0) {
                Some(v) => v,
                None => {
                    return Err(OakError::Overflow);
                },
            };
        }
        Ok(
            FlashSettlement {
                reserve0: reserve0_after,
                reserve1: reserve1_after,
                volume0,
                volume1,
                treasury_fees,
                lp_fees,
            },
        )
    }
}

impl FlashSettlement {
    /// The state that writing the settlement to `pre` gives.
    spec fn applied_to(self, pre: DexState) -> DexState {
        DexState {
            reserves0: self.reserve0@,
            reserves1: self.reserve1@,
            total_volume_token0: self.volume0@,
            total_volume_token1: self.volume1@,
            accrued_treasury_fees_token0: self.treasury_fees@,
            accrued_lp_fees_token0: self.lp_fees@,
            locked: false,
            ..pre
        }
    }
}

/// Checks that the balances cover the loan and gives the reserves that they
/// leave: each lent-down reserve and what came back on top of it.
fn repaid_reserves(
    loan: &FlashLoan,
    debt: &FlashDebt,
    balance0_after: U256,
    balance1_after: U256,
) -> (r: OakResult<(U256, U256)>)
    ensures
        match r {
            Ok(reserves) => {
                &&& spec_repayment_check(*loan, *debt, balance0_after@, balance1_after@) is Ok
                &&& reserves.0 == balance0_after
                &&& reserves.1 == balance1_after
            },
            Err(e) => spec_repayment_check(*loan, *debt, balance0_after@, balance1_after@) == Err::<
                (),
                OakError,
            >(e),
        },
{
    let expected_balance0 = match loan.reserve0_after_lend.checked_add(debt.amount0_owed) {
        Some(v) => v,
        None => {
            return Err(OakError::Overflow);
        },
    };
    let expected_balance1 = match loan.reserve1_after_lend.checked_add(debt.amount1_owed) {
        Some(v) => v,
        None => {
            return Err(OakError::Overflow);
        },
    };
    if balance0_after.lt(&expected_balance0) || balance1_after.lt(&expected_balance1) {
        return Err(OakError::InsufficientLiquidity);
    }
    let actual_repayment0 = match balance0_after.checked_sub(loan.reserve0_after_lend) {
        Some(v) => v,
        None => {
            return Err(OakError::InsufficientLiquidity);
        },
    };
    let actual_repayment1 = match balance1_after.checked_sub(loan.reserve1_after_lend) {
        Some(v) => v,
        None => {
            return Err(OakError::InsufficientLiquidity);
        },
    };
    let reserve0_after = match loan.reserve0_after_lend.checked_add(actual_repayment0) {
        Some(v) => v,
        None => {
            return Err(OakError::Reserve0Overflow);
        },
    };
    let reserve1_after = match loan.reserve1_after_lend.checked_add(actual_repayment1) {
        Some(v) => v,
        None => {
            return Err(OakError::Reserve1Overflow);
        },
    };
    proof {
        reserve0_after.lemma_view_injective(balance0_after);
        reserve1_after.lemma_view_injective(balance1_after);
    }
    Ok((reserve0_after, reserve1_after))
}

/// Checks the product of the new reserves against the product before the
/// loan, raised by the fee rate.
fn check_product(k_before: U256, fee_bps: U256, reserve0: U256, reserve1: U256) -> (r: OakResult<
    (),
>)
    ensures
        r == spec_product_check(k_before@, fee_bps@, reserve0@, reserve1@),
        r is Ok ==> reserve0@ * reserve1@ >= k_before@,
{
    let k_after = match reserve0.checked_mul(reserve1) {
        Some(v) => v,
        None => {
            return Err(OakError::Overflow);
        },
    };
    let fee_multiplier = match as_u256(FEE_DENOMINATOR).checked_add(fee_bps) {
        Some(v) => v,
        None => {
            return Err(OakError::Overflow);
        },
    };
    let k_scaled = match k_before.checked_mul(fee_multiplier) {
        Some(v) => v,
        None => {
            return Err(OakError::Overflow);
        },
    };
    let k_min = match k_scaled.checked_div(as_u256(FEE_DENOMINATOR)) {
        Some(v) => v,
        None => {
            return Err(OakError::DivisionByZero);
        },
    };
    if k_after.lt(&k_min) {
        return Err(OakError::InsufficientLiquidity);
    }
    proof {
        let k = k_before@ as int;
        let m = fee_multiplier@ as int;
        assert(k * m >= k * 10000) by (nonlinear_arith)
            requires
                k >= 0,
                m >= 10000,
        ;
    }
    Ok(())
}

/// Computes the fees on the two amounts lent and what is owed on each side.
fn flash_debt(amount0_out: U256, amount1_out: U256, fee_bps: U256) -> (r: OakResult<FlashDebt>)
    ensures
        match r {
            Ok(debt) => {
                &&& spec_flash_debt_fits(amount0_out@, amount1_out@, fee_bps@)
                &&& debt.fee0@ == spec_total_fee(amount0_out@, fee_bps@)
                &&& debt.fee1@ == spec_total_fee(amount1_out@, fee_bps@)
                &&& debt.amount0_owed@ == amount0_out@ + debt.fee0@
                &&& debt.amount1_owed@ == amount1_out@ + debt.fee1@
            },
            Err(e) => e == OakError::Overflow && !spec_flash_debt_fits(
                amount0_out@,
                amount1_out@,
                fee_bps@,
            ),
        },
{
    let fee0 = match flash_fee(amount0_out, fee_bps) {
        Ok(v) => v,
        Err(e) => {
            return Err(e);
        },
    };
    let fee1 = match flash_fee(amount1_out, fee_bps) {
        Ok(v) => v,
        Err(e) => {
            return Err(e);
        },
    };
    let amount0_owed = match amount0_out.checked_add(fee0) {
        Some(v) => v,
        None => {
            return Err(OakError::Overflow);
        },
    };
    let amount1_owed = match amount1_out.checked_add(fee1) {
        Some(v) => v,
        None => {
            return Err(OakError::Overflow);
        },
    };
    Ok(FlashDebt { fee0, fee1, amount0_owed, amount1_owed })
}

/// The fee on an amount lent, rounded down; nothing lent costs nothing.
fn flash_fee(amount_out: U256, fee_bps: U256) -> (r: OakResult<U256>)
    ensures
        match r {
            Ok(fee) => amount_out@ * fee_bps@ <= u256_max() && fee@ == spec_total_fee(
                amount_out@,
                fee_bps@,
            ),
            Err(e) => e == OakError::Overflow && amount_out@ * fee_bps@ > u256_max(),
        },
{
    if amount_out.is_zero() {
        assert(amount_out@ * fee_bps@ == 0) by (nonlinear_arith)
            requires
                amount_out@ == 0,
        ;
        return Ok(U256::zero());
    }
    let product = match amount_out.checked_mul(fee_bps) {
        Some(v) => v,
        None => {
            return Err(OakError::Overflow);
        },
    };
    match product.checked_div(as_u256(FEE_DENOMINATOR)) {
        Some(fee) => Ok(fee),
        None => Err(OakError::DivisionByZero),
    }
}

} // verus!
