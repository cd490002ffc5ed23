//! Initialisation, the owner's settings and the treasury's withdrawal.

use oak_protocol::address::Address;
use oak_protocol::constants::as_u256;
use oak_protocol::errors::OakError;
use oak_protocol::events::{emit_pause_changed, emit_set_fee, emit_withdraw_treasury_fees};
use oak_protocol::logic::{
    lock_reentrancy_guard, only_owner, require_non_zero_address, unlock_reentrancy_guard,
};
use oak_protocol::state::{CallContext, Commitment, OakDEX};
use oak_protocol::token::Transfer;
use oak_protocol::uint::U256;

fn owner() -> Address {
    Address::from_limbs(0x0a, 0, 0)
}

fn treasury() -> Address {
    Address::from_limbs(0x0b, 0, 0)
}

fn stranger() -> Address {
    Address::from_limbs(0x0c, 0, 0)
}

fn token() -> Address {
    Address::from_limbs(0x70, 0, 1)
}

fn call(sender: Address) -> CallContext {
    CallContext {
        sender,
        contract: Address::from_limbs(0xdec, 0, 0),
        block_number: as_u256(10),
    }
}

fn initialised() -> OakDEX {
    let mut dex = OakDEX::new();
    dex.init(owner(), treasury()).unwrap();
    dex
}

#[test]
fn a_new_contract_is_blank() {
    let dex = OakDEX::new();
    assert!(dex.reserves0.is_zero());
    assert!(dex.reserves1.is_zero());
    assert!(dex.min_liquidity.is_zero());
    assert!(dex.protocol_fee_bps.is_zero());
    assert!(dex.owner.is_zero());
    assert!(dex.treasury.is_zero());
    assert!(!dex.paused);
    assert!(!dex.locked);
    assert_eq!(dex.commitments.get(owner()), Commitment::empty());
}

#[test]
fn init_sets_owner_treasury_and_default_fee() {
    let mut dex = OakDEX::new();
    dex.paused = true;
    dex.locked = true;
    dex.total_volume_token0 = as_u256(5);
    dex.total_volume_token1 = as_u256(6);
    dex.accrued_treasury_fees_token0 = as_u256(7);
    dex.accrued_lp_fees_token0 = as_u256(8);
    dex.reserves0 = as_u256(9);
    assert_eq!(dex.init(owner(), treasury()), Ok(()));
    assert_eq!(dex.owner, owner());
    assert_eq!(dex.treasury, treasury());
    assert_eq!(dex.protocol_fee_bps, as_u256(30));
    assert!(dex.total_volume_token0.is_zero());
    assert!(dex.total_volume_token1.is_zero());
    assert!(dex.accrued_treasury_fees_token0.is_zero());
    assert!(dex.accrued_lp_fees_token0.is_zero());
    assert!(!dex.paused);
    assert!(!dex.locked);
    // Reserves are not touched.
    assert_eq!(dex.reserves0, as_u256(9));
}

#[test]
fn init_works_once() {
    let mut dex = initialised();
    assert_eq!(
        dex.init(stranger(), stranger()),
        Err(OakError::AlreadyInitialized)
    );
    assert_eq!(dex.owner, owner());
    assert_eq!(dex.treasury, treasury());
}

#[test]
fn init_refuses_zero_owner_or_treasury() {
    let mut dex = OakDEX::new();
    assert_eq!(
        dex.init(Address::zero(), treasury()),
        Err(OakError::InvalidOwner)
    );
    assert_eq!(
        dex.init(owner(), Address::zero()),
        Err(OakError::InvalidOwner)
    );
    assert!(dex.owner.is_zero());
    assert!(dex.treasury.is_zero());
    assert!(dex.protocol_fee_bps.is_zero());
    assert_eq!(dex.init(owner(), treasury()), Ok(()));
}

#[test]
fn only_the_owner_sets_the_fee() {
    let mut dex = initialised();
    assert_eq!(dex.set_fee(call(stranger()), 50).err(), Some(OakError::OnlyOwner));
    assert_eq!(dex.protocol_fee_bps, as_u256(30));
    assert_eq!(dex.set_fee(call(owner()), 50), Ok(emit_set_fee(50)));
    assert_eq!(dex.protocol_fee_bps, as_u256(50));
    assert_eq!(dex.set_fee(call(owner()), 0), Ok(emit_set_fee(0)));
    assert!(dex.protocol_fee_bps.is_zero());
}

#[test]
fn the_fee_is_capped() {
    let mut dex = initialised();
    assert_eq!(dex.set_fee(call(owner()), 1_000), Ok(emit_set_fee(1_000)));
    assert_eq!(dex.protocol_fee_bps, as_u256(1_000));
    assert_eq!(dex.set_fee(call(owner()), 1_001).err(), Some(OakError::FeeTooHigh));
    assert_eq!(dex.set_fee(call(owner()), u16::MAX).err(), Some(OakError::FeeTooHigh));
    assert_eq!(dex.protocol_fee_bps, as_u256(1_000));
    // The owner is looked at first.
    assert_eq!(
        dex.set_fee(call(stranger()), 1_001).err(),
        Some(OakError::OnlyOwner)
    );
}

#[test]
fn only_the_owner_pauses() {
    let mut dex = initialised();
    assert_eq!(dex.pause(call(stranger())).err(), Some(OakError::OnlyOwner));
    assert!(!dex.paused);
    assert_eq!(dex.pause(call(owner())), Ok(emit_pause_changed(true)));
    assert!(dex.paused);
    assert_eq!(dex.unpause(call(stranger())).err(), Some(OakError::OnlyOwner));
    assert!(dex.paused);
    assert_eq!(dex.unpause(call(owner())), Ok(emit_pause_changed(false)));
    assert!(!dex.paused);
}

#[test]
fn the_pause_does_not_hold_up_the_fee_setting() {
    let mut dex = initialised();
    dex.pause(call(owner())).unwrap();
    assert!(dex.set_fee(call(owner()), 10).is_ok());
    assert_eq!(dex.protocol_fee_bps, as_u256(10));
}

#[test]
fn withdrawal_hands_out_the_accrued_fees() {
    let mut dex = initialised();
    dex.accrued_treasury_fees_token0 = as_u256(1_200);
    dex.accrued_lp_fees_token0 = as_u256(1_800);
    let transfer = dex.withdraw_treasury_fees(call(owner()), token()).unwrap();
    assert_eq!(
        transfer,
        Transfer {
            token: token(),
            to: treasury(),
            amount: as_u256(1_200),
        }
    );
    // The counter is zero before the transfer is made, and the guard held.
    assert!(dex.accrued_treasury_fees_token0.is_zero());
    assert_eq!(dex.accrued_lp_fees_token0, as_u256(1_800));
    assert!(dex.locked);
    let log = dex.finish_withdraw_treasury_fees(&transfer);
    assert_eq!(
        log,
        emit_withdraw_treasury_fees(treasury(), token(), as_u256(1_200))
    );
    assert!(!dex.locked);
    assert!(dex.accrued_treasury_fees_token0.is_zero());
    assert_eq!(
        dex.withdraw_treasury_fees(call(owner()), token()).err(),
        Some(OakError::NoTreasuryFees)
    );
}

#[test]
fn withdrawal_is_refused_in_order() {
    let mut dex = initialised();
    dex.accrued_treasury_fees_token0 = as_u256(5);
    assert_eq!(
        dex.withdraw_treasury_fees(call(stranger()), Address::zero()).err(),
        Some(OakError::OnlyOwner)
    );
    assert_eq!(
        dex.withdraw_treasury_fees(call(owner()), Address::zero()).err(),
        Some(OakError::InvalidAddress)
    );
    dex.locked = true;
    assert_eq!(
        dex.withdraw_treasury_fees(call(owner()), token()).err(),
        Some(OakError::ReentrantCall)
    );
    assert!(dex.locked);
    dex.locked = false;
    dex.treasury = Address::zero();
    assert_eq!(
        dex.withdraw_treasury_fees(call(owner()), token()).err(),
        Some(OakError::InvalidOwner)
    );
    dex.treasury = treasury();
    dex.accrued_treasury_fees_token0 = U256::zero();
    assert_eq!(
        dex.withdraw_treasury_fees(call(owner()), token()).err(),
        Some(OakError::NoTreasuryFees)
    );
    assert!(!dex.locked);
}

#[test]
fn the_pause_does_not_hold_up_the_withdrawal() {
    let mut dex = initialised();
    dex.accrued_treasury_fees_token0 = as_u256(5);
    dex.pause(call(owner())).unwrap();
    assert!(dex.withdraw_treasury_fees(call(owner()), token()).is_ok());
}

#[test]
fn the_guard_is_taken_once() {
    let mut dex = OakDEX::new();
    assert_eq!(lock_reentrancy_guard(&mut dex), Ok(()));
    assert!(dex.locked);
    assert_eq!(
        lock_reentrancy_guard(&mut dex),
        Err(OakError::ReentrantCall)
    );
    assert!(dex.locked);
    unlock_reentrancy_guard(&mut dex);
    assert!(!dex.locked);
    assert_eq!(lock_reentrancy_guard(&mut dex), Ok(()));
}

#[test]
fn owner_and_address_checks() {
    assert_eq!(only_owner(owner(), owner()), Ok(()));
    assert_eq!(only_owner(stranger(), owner()), Err(OakError::OnlyOwner));
    assert_eq!(require_non_zero_address(owner()), Ok(()));
    assert_eq!(
        require_non_zero_address(Address::zero()),
        Err(OakError::InvalidAddress)
    );
}
