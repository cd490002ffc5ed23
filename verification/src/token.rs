//! Requests to token contracts.
//!
//! The exchange does not move tokens itself: it tells the ledger which
//! transfer to ask of which token contract, and is told what the contract
//! answered. The functions here decide whether a transfer is asked for at
//! all, and what an answer means.

use crate::address::Address;
use crate::errors::{OakError, OakResult};
use crate::uint::U256;
use vstd::prelude::*;

verus! {

/// A request to a token contract to move `amount` from the exchange to `to`.
#[derive(Clone, Copy, Debug, PartialEq, Eq, Structural)]
pub struct Transfer {
    pub token: Address,
    pub to: Address,
    pub amount: U256,
}

/// A request to a token contract to move `amount` from `from` to `to`, on the
/// strength of an allowance that `from` gave the exchange.
#[derive(Clone, Copy, Debug, PartialEq, Eq, Structural)]
pub struct TransferFrom {
    pub token: Address,
    pub from: Address,
    pub to: Address,
    pub amount: U256,
}

/// A request to the ledger to move `amount` of the native currency from the
/// exchange to `to`.
#[derive(Clone, Copy, Debug, PartialEq, Eq, Structural)]
pub struct EthTransfer {
    pub to: Address,
    pub amount: U256,
}

/// The request that moves `amount` of `token` from `from` to `to`: refused
/// for a zero address, none for a zero amount.
pub open spec fn spec_safe_transfer_from(token: Address, from: Address, to: Address, amount: U256)
    -> Result<Option<TransferFrom>, OakError> {
    if token == Address::spec_zero() || from == Address::spec_zero() || to == Address::spec_zero() {
        Err(OakError::InvalidAddress)
    } else if amount@ == 0 {
        Ok(None)
    } else {
        Ok(Some(TransferFrom { token, from, to, amount }))
    }
}

/// The request that moves `amount` of `token` from the exchange to `to`:
/// refused for a zero address, none for a zero amount.
pub open spec fn spec_safe_transfer(token: Address, to: Address, amount: U256) -> Result<
    Option<Transfer>,
    OakError,
> {
    if token == Address::spec_zero() || to == Address::spec_zero() {
        Err(OakError::InvalidAddress)
    } else if amount@ == 0 {
        Ok(None)
    } else {
        Ok(Some(Transfer { token, to, amount }))
    }
}

/// Prepares the transfer of `amount` of `token` from `from` to `to`.
///
/// Fails with `InvalidAddress` if one of the three addresses is zero. A zero
/// amount needs no transfer and gives `None`.
pub fn safe_transfer_from(token: Address, from: Address, to: Address, amount: U256) -> (r:
    OakResult<Option<TransferFrom>>)
    ensures
        r == spec_safe_transfer_from(token, from, to, amount),
{
    if token.is_zero() {
        return Err(OakError::InvalidAddress);
    }
    if from.is_zero() {
        return Err(OakError::InvalidAddress);
    }
    if to.is_zero() {
        return Err(OakError::InvalidAddress);
    }
    if amount.is_zero() {
        return Ok(None);
    }
    Ok(Some(TransferFrom { token, from, to, amount }))
}

/// Prepares the transfer of `amount` of `token` from the exchange to `to`.
///
/// Fails with `InvalidAddress` if one of the two addresses is zero. A zero
/// amount needs no transfer and gives `None`.
pub fn safe_transfer(token: Address, to: Address, amount: U256) -> (r: OakResult<Option<Transfer>>)
    ensures
        r == spec_safe_transfer(token, to, amount),
{
    if token.is_zero() {
        return Err(OakError::InvalidAddress);
    }
    if to.is_zero() {
        return Err(OakError::InvalidAddress);
    }
    if amount.is_zero() {
        return Ok(None);
    }
    Ok(Some(Transfer { token, to, amount }))
}

/// Prepares the transfer of `amount` of the native currency to `to`. A zero
/// amount needs no transfer and gives `None`.
pub fn safe_transfer_eth(to: Address, amount: U256) -> (r: Option<EthTransfer>)
    ensures
        r == (if amount@ == 0 {
            None::<EthTransfer>
        } else {
            Some(EthTransfer { to, amount })
        }),
{
    if amount.is_zero() {
        return None;
    }
    Some(EthTransfer { to, amount })
}

/// What a transfer's answer means: a transfer that did not go through is
/// `TokenTransferFailed`.
pub fn transfer_outcome(success: bool) -> (r: OakResult<()>)
    ensures
        r == (if success {
            Ok::<(), OakError>(())
        } else {
            Err::<(), OakError>(OakError::TokenTransferFailed)
        }),
{
    if success {
        Ok(())
    } else {
        Err(OakError::TokenTransferFailed)
    }
}

/// The balance that a token contract reported, or zero where it gave no
/// answer.
pub fn balance_of(reply: Option<U256>) -> (balance: U256)
    ensures
        balance == (match reply {
            Some(reported) => reported,
            None => (U256 { l0: 0, l1: 0, l2: 0, l3: 0 }),
        }),
{
    match reply {
        Some(reported) => reported,
        None => U256::zero(),
    }
}

} // verus!
