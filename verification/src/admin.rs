//! Initialisation, the owner's settings and the treasury's withdrawal.

use crate::address::Address;
use crate::constants::{as_u256, DEFAULT_FEE_BPS, MAX_FEE_BPS};
use crate::errors::{OakError, OakResult};
use crate::events::{
    emit_pause_changed,
    emit_set_fee,
    emit_withdraw_treasury_fees,
    spec_pause_changed_log,
    spec_set_fee_log,
    spec_withdraw_treasury_fees_log,
    Log,
};
use crate::logic::{
    lock_reentrancy_guard,
    only_owner,
    require_non_zero_address,
    unlock_reentrancy_guard,
};
use crate::state::{spec_unlock, transition, CallContext, DexState, OakDEX};
use crate::token::{safe_transfer, Transfer};
use crate::uint::U256;
use vstd::prelude::*;

verus! {

/// The state after initialisation, or the reason it is refused.
///
/// Reserves, the liquidity floor and the commitments are left as they are.
pub open spec fn spec_init(pre: DexState, initial_owner: Address, treasury: Address) -> Result<
    DexState,
    OakError,
> {
    if pre.owner != Address::spec_zero() {
        Err(OakError::AlreadyInitialized)
    } else if initial_owner == Address::spec_zero() || treasury == Address::spec_zero() {
        Err(OakError::InvalidOwner)
    } else {
        Ok(
            DexState {
                owner: initial_owner,
                treasury,
                protocol_fee_bps: DEFAULT_FEE_BPS as nat,
                total_volume_token0: 0,
                total_volume_token1: 0,
                accrued_treasury_fees_token0: 0,
                accrued_lp_fees_token0: 0,
                paused: false,
                locked: false,
                ..pre
            },
        )
    }
}

/// The state after the owner sets the fee, or the reason it is refused.
pub open spec fn spec_set_fee(pre: DexState, sender: Address, new_fee_bps: nat) -> Result<
    DexState,
    OakError,
> {
    if sender != pre.owner {
        Err(OakError::OnlyOwner)
    } else if new_fee_bps > MAX_FEE_BPS {
        Err(OakError::FeeTooHigh)
    } else {
        Ok(DexState { protocol_fee_bps: new_fee_bps, ..pre })
    }
}

/// The state after the owner switches the pause on or off, or the reason it
/// is refused.
pub open spec fn spec_set_paused(pre: DexState, sender: Address, paused: bool) -> Result<
    DexState,
    OakError,
> {
    if sender != pre.owner {
        Err(OakError::OnlyOwner)
    } else {
        Ok(DexState { paused, ..pre })
    }
}

/// The state in which the treasury's fees are on their way out, or the
/// reason they are not: the counter is zero and the guard is held.
pub open spec fn spec_withdraw_treasury_fees(pre: DexState, sender: Address, token: Address)
    -> Result<DexState, OakError> {
    if sender != pre.owner {
        Err(OakError::OnlyOwner)
    } else if token == Address::spec_zero() {
        Err(OakError::InvalidAddress)
    } else if pre.locked {
        Err(OakError::ReentrantCall)
    } else if pre.treasury == Address::spec_zero() {
        Err(OakError::InvalidOwner)
    } else if pre.accrued_treasury_fees_token0 == 0 {
        Err(OakError::NoTreasuryFees)
    } else {
        Ok(DexState { accrued_treasury_fees_token0: 0, locked: true, ..pre })
    }
}

impl OakDEX {
    /// Initialises the contract: sets the owner and the treasury, the
    /// default fee, zero counters, and clears the pause and the guard.
    ///
    /// Works once: a contract with an owner refuses with
    /// `AlreadyInitialized`. A zero owner or treasury is `InvalidOwner`.
    pub fn init(&mut self, initial_owner: Address, treasury: Address) -> (r: OakResult<()>)
        ensures
            transition(
                old(self)@,
                final(self)@,
                r,
                spec_init(old(self)@, initial_owner, treasury),
            ),
    {
        if !self.owner.is_zero() {
            return Err(OakError::AlreadyInitialized);
        }
        if initial_owner.is_zero() {
            return Err(OakError::InvalidOwner);
        }
        if treasury.is_zero() {
            return Err(OakError::InvalidOwner);
        }
        self.owner = initial_owner;
        self.treasury = treasury;
        self.protocol_fee_bps = as_u256(DEFAULT_FEE_BPS);
        self.total_volume_token0 = U256::zero();
        self.total_volume_token1 = U256::zero();
        self.accrued_treasury_fees_token0 = U256::zero();
        self.accrued_lp_fees_token0 = U256::zero();
        self.paused = false;
        self.locked = false;
        Ok(())
    }

    /// Sets the total fee, in basis points, and gives the record of the
    /// change. Owner only; at most `MAX_FEE_BPS`.
    pub fn set_fee(&mut self, ctx: CallContext, new_fee_bps: u16) -> (r: OakResult<Log>)
        ensures
            transition(
                old(self)@,
                final(self)@,
                r,
                spec_set_fee(old(self)@, ctx.sender, new_fee_bps as nat),
            ),
            r matches Ok(log) ==> log@ == spec_set_fee_log(new_fee_bps as nat),
    {
        match only_owner(ctx.sender, self.owner) {
            Err(e) => {
                return Err(e);
            },
            Ok(_) => {},
        }
        if new_fee_bps as u64 > MAX_FEE_BPS {
            return Err(OakError::FeeTooHigh);
        }
        self.protocol_fee_bps = as_u256(new_fee_bps as u64);
        Ok(emit_set_fee(new_fee_bps))
    }

    /// Pauses commitments, reveals, deposits and flash swaps, and gives the
    /// record of the change. Owner only.
    pub fn pause(&mut self, ctx: CallContext) -> (r: OakResult<Log>)
        ensures
            transition(
                old(self)@,
                final(self)@,
                r,
                spec_set_paused(old(self)@, ctx.sender, true),
            ),
            r matches Ok(log) ==> log@ == spec_pause_changed_log(true),
    {
        match only_owner(ctx.sender, self.owner) {
            Err(e) => {
                return Err(e);
            },
            Ok(_) => {},
        }
        self.paused = true;
        Ok(emit_pause_changed(true))
    }

    /// Lifts the pause, and gives the record of the change. Owner only.
    pub fn unpause(&mut self, ctx: CallContext) -> (r: OakResult<Log>)
        ensures
            transition(
                old(self)@,
                final(self)@,
                r,
                spec_set_paused(old(self)@, ctx.sender, false),
            ),
            r matches Ok(log) ==> log@ == spec_pause_changed_log(false),
    {
        match only_owner(ctx.sender, self.owner) {
            Err(e) => {
                return Err(e);
            },
            Ok(_) => {},
        }
        self.paused = false;
        Ok(emit_pause_changed(false))
    }

    /// Starts the withdrawal of the treasury's accrued fees in `token`.
    ///
    /// On success the counter is zero already, the guard is held, and the
    /// result is the transfer of the whole accrued amount to the treasury.
    /// The caller has the transfer performed and then calls
    /// [`OakDEX::finish_withdraw_treasury_fees`]. Owner only; not held up by
    /// the pause.
    pub fn withdraw_treasury_fees(&mut self, ctx: CallContext, token: Address) -> (r: OakResult<
        Transfer,
    >)
        ensures
            transition(
                old(self)@,
                final(self)@,
                r,
                spec_withdraw_treasury_fees(old(self)@, ctx.sender, token),
            ),
            r matches Ok(transfer) ==> transfer == (Transfer {
                token,
                to: old(self).treasury,
                amount: old(self).accrued_treasury_fees_token0,
            }),
    {
        match only_owner(ctx.sender, self.owner) {
            Err(e) => {
                return Err(e);
            },
            Ok(_) => {},
        }
        match require_non_zero_address(token) {
            Err(e) => {
                return Err(e);
            },
            Ok(_) => {},
        }
        match lock_reentrancy_guard(self) {
            Err(e) => {
                return Err(e);
            },
            Ok(_) => {},
        }
        let ghost locked = self@;
        assert(locked == DexState { locked: true, ..old(self)@ });
        match self.treasury_transfer(token) {
            Ok(transfer) => {
                self.accrued_treasury_fees_token0 = U256::zero();
                assert(self@ == DexState { accrued_treasury_fees_token0: 0, ..locked });
                Ok(transfer)
            },
            Err(e) => {
                unlock_reentrancy_guard(self);
                assert(self@ == old(self)@);
                Err(e)
            },
        }
    }

    /// Ends a withdrawal whose transfer went through: releases the guard
    /// and gives the record of the withdrawal.
    pub fn finish_withdraw_treasury_fees(&mut self, transfer: &Transfer) -> (log: Log)
        ensures
            final(self)@ == spec_unlock(old(self)@),
            log@ == spec_withdraw_treasury_fees_log(transfer.to, transfer.token, transfer.amount@),
    {
        unlock_reentrancy_guard(self);
        emit_withdraw_treasury_fees(transfer.to, transfer.token, transfer.amount)
    }

    /// The transfer that pays the accrued fees out to the treasury, if
    /// there is a treasury and anything has accrued.
    fn treasury_transfer(&self, token: Address) -> (r: OakResult<Transfer>)
        requires
            token != Address::spec_zero(),
        ensures
            match r {
                Ok(transfer) => {
                    &&& self.treasury != Address::spec_zero()
                    &&& self.accrued_treasury_fees_token0@ != 0
                    &&& transfer == (Transfer {
                        token,
                        to: self.treasury,
                        amount: self.accrued_treasury_fees_token0,
                    })
                },
                Err(e) => if self.treasury == Address::spec_zero() {
                    e == OakError::InvalidOwner
                } else {
                    e == OakError::NoTreasuryFees && self.accrued_treasury_fees_token0@ == 0
                },
            },
    {
        if self.treasury.is_zero() {
            return Err(OakError::InvalidOwner);
        }
        let accrued = self.accrued_treasury_fees_token0;
        if accrued.is_zero() {
            return Err(OakError::NoTreasuryFees);
        }
        match safe_transfer(token, self.treasury, accrued) {
            Ok(Some(transfer)) => Ok(transfer),
            Ok(None) => Err(OakError::NoTreasuryFees),
            Err(e) => Err(e),
        }
    }
}

} // verus!
