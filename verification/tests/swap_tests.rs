//! The swap engine.

use oak_protocol::address::Address;
use oak_protocol::constants::{as_u256, COMMIT_REVEAL_DELAY, MAX_COMMITMENT_AGE};
use oak_protocol::errors::OakError;
use oak_protocol::events::emit_reveal_swap;
use oak_protocol::logic::{compute_commit_hash, unlock_reentrancy_guard};
use oak_protocol::state::{CallContext, Commitment, OakDEX};
use oak_protocol::token::{Transfer, TransferFrom};
use oak_protocol::uint::U256;

fn owner() -> Address {
    Address::from_limbs(0x0a, 0, 0)
}

fn trader() -> Address {
    Address::from_limbs(0x77, 0, 0)
}

fn exchange() -> Address {
    Address::from_limbs(0xdec, 0, 0)
}

fn token0() -> Address {
    Address::from_limbs(0, 0, 0xa0)
}

fn token1() -> Address {
    Address::from_limbs(0, 0, 0xa1)
}

fn at(block: u64) -> CallContext {
    CallContext {
        sender: trader(),
        contract: exchange(),
        block_number: as_u256(block),
    }
}

fn max() -> U256 {
    U256::from_limbs([u64::MAX; 4])
}

/// A pool of 10000 token0 and 20000 token1 at the default fee, with a floor
/// of 1000, in which the trader committed to (1000, 42) in block 100.
fn pool_with_commitment() -> OakDEX {
    let mut dex = OakDEX::new();
    dex.init(owner(), Address::from_limbs(0x0b, 0, 0)).unwrap();
    dex.reserves0 = as_u256(10_000);
    dex.reserves1 = as_u256(20_000);
    dex.min_liquidity = as_u256(1_000);
    dex.commit_swap(at(100), compute_commit_hash(as_u256(1_000), as_u256(42)))
        .unwrap();
    dex
}

fn reveal_at(dex: &mut OakDEX, block: u64, min_amount_out: u64) -> Result<(), OakError> {
    dex.reveal_swap(
        at(block),
        token0(),
        token1(),
        as_u256(1_000),
        as_u256(42),
        as_u256(min_amount_out),
    )
    .map(|_| ())
}

#[test]
fn reveal_books_the_trade() {
    let mut dex = pool_with_commitment();
    let settlement = dex
        .reveal_swap(
            at(105),
            token0(),
            token1(),
            as_u256(1_000),
            as_u256(42),
            as_u256(1_800),
        )
        .unwrap();
    assert_eq!(settlement.trader, trader());
    assert_eq!(settlement.amount_in, as_u256(1_000));
    assert_eq!(settlement.amount_out, as_u256(1_813));
    // fee 1000 * 30 / 10000 = 3; treasury 3 * 12 / 30 = 1; providers 2
    assert_eq!(settlement.treasury_fee, as_u256(1));
    assert_eq!(settlement.lp_fee, as_u256(2));
    assert_eq!(
        settlement.pull,
        Some(TransferFrom {
            token: token0(),
            from: trader(),
            to: exchange(),
            amount: as_u256(1_000),
        })
    );
    assert_eq!(
        settlement.push,
        Some(Transfer {
            token: token1(),
            to: trader(),
            amount: as_u256(1_813),
        })
    );
    assert_eq!(dex.reserves0, as_u256(11_000));
    assert_eq!(dex.reserves1, as_u256(18_187));
    assert_eq!(dex.total_volume_token0, as_u256(1_000));
    assert_eq!(dex.total_volume_token1, as_u256(1_813));
    assert_eq!(dex.accrued_treasury_fees_token0, as_u256(1));
    assert_eq!(dex.accrued_lp_fees_token0, as_u256(2));
    assert_eq!(dex.commitments.get(trader()), Commitment::empty());
    // The guard is held until the transfers are made.
    assert!(dex.locked);
    let log = dex.finish_reveal_swap(&settlement);
    assert_eq!(
        log,
        emit_reveal_swap(trader(), as_u256(1_000), as_u256(1_813), as_u256(1), as_u256(2))
    );
    assert!(!dex.locked);
    assert_eq!(dex.reserves0, as_u256(11_000));
    assert_eq!(dex.reserves1, as_u256(18_187));
    // 11000 * 18187 >= 10000 * 20000
    assert!(11_000u64 * 18_187 >= 10_000u64 * 20_000);
}

#[test]
fn reveal_cannot_be_replayed() {
    let mut dex = pool_with_commitment();
    assert_eq!(reveal_at(&mut dex, 105, 1), Ok(()));
    unlock_reentrancy_guard(&mut dex);
    assert_eq!(reveal_at(&mut dex, 105, 1), Err(OakError::CommitNotFound));
    assert_eq!(reveal_at(&mut dex, 106, 1), Err(OakError::CommitNotFound));
    assert_eq!(dex.reserves0, as_u256(11_000));
    assert_eq!(dex.reserves1, as_u256(18_187));
}

#[test]
fn reveal_respects_the_window() {
    let mut dex = pool_with_commitment();
    assert_eq!(
        reveal_at(&mut dex, 100 + COMMIT_REVEAL_DELAY - 1, 1),
        Err(OakError::TooEarly)
    );
    assert_eq!(
        reveal_at(&mut dex, 100 + MAX_COMMITMENT_AGE + 1, 1),
        Err(OakError::CommitmentExpired)
    );
    // A refused reveal leaves everything as it was.
    assert!(dex.commitments.get(trader()).activated);
    assert!(!dex.locked);
    assert_eq!(dex.reserves0, as_u256(10_000));
    assert_eq!(reveal_at(&mut dex, 100 + MAX_COMMITMENT_AGE, 1), Ok(()));

    let mut other = pool_with_commitment();
    assert_eq!(reveal_at(&mut other, 100 + COMMIT_REVEAL_DELAY, 1), Ok(()));
}

#[test]
fn swap_reveal_needs_the_committed_values() {
    let mut dex = pool_with_commitment();
    let wrong_amount = dex.reveal_swap(
        at(105),
        token0(),
        token1(),
        as_u256(1_001),
        as_u256(42),
        as_u256(1),
    );
    assert_eq!(wrong_amount.err(), Some(OakError::InvalidHash));
    let wrong_salt = dex.reveal_swap(
        at(105),
        token0(),
        token1(),
        as_u256(1_000),
        as_u256(40),
        as_u256(1),
    );
    assert_eq!(wrong_salt.err(), Some(OakError::InvalidHash));
    assert!(dex.commitments.get(trader()).activated);
    assert_eq!(reveal_at(&mut dex, 105, 1), Ok(()));
}

#[test]
fn reveal_by_another_account_finds_nothing() {
    let mut dex = pool_with_commitment();
    let stranger = CallContext {
        sender: Address::from_limbs(0x78, 0, 0),
        ..at(105)
    };
    let r = dex.reveal_swap(
        stranger,
        token0(),
        token1(),
        as_u256(1_000),
        as_u256(42),
        as_u256(1),
    );
    assert_eq!(r.err(), Some(OakError::CommitNotFound));
}

#[test]
fn reveal_meets_the_minimum_or_fails() {
    let mut dex = pool_with_commitment();
    assert_eq!(
        reveal_at(&mut dex, 105, 1_814),
        Err(OakError::InsufficientOutputAmount)
    );
    assert!(dex.commitments.get(trader()).activated);
    assert_eq!(reveal_at(&mut dex, 105, 1_813), Ok(()));
}

#[test]
fn reveal_checks_its_arguments_in_order() {
    let mut dex = pool_with_commitment();
    dex.paused = true;
    dex.locked = true;
    let zero = Address::zero();
    let call = |dex: &mut OakDEX, t0: Address, t1: Address, amount: u64, min: u64| {
        dex.reveal_swap(at(105), t0, t1, as_u256(amount), as_u256(42), as_u256(min))
            .err()
    };
    assert_eq!(call(&mut dex, zero, zero, 0, 0), Some(OakError::ReentrantCall));
    assert!(dex.locked);
    dex.locked = false;
    assert_eq!(call(&mut dex, zero, token1(), 0, 0), Some(OakError::InvalidAddress));
    assert_eq!(call(&mut dex, token0(), zero, 0, 0), Some(OakError::InvalidAddress));
    assert_eq!(
        call(&mut dex, token0(), token1(), 0, 0),
        Some(OakError::InsufficientInputAmount)
    );
    assert_eq!(
        call(&mut dex, token0(), token1(), 1_000, 0),
        Some(OakError::InsufficientOutputAmount)
    );
    assert_eq!(call(&mut dex, token0(), token1(), 1_000, 1), Some(OakError::Paused));
    assert!(!dex.locked);
    dex.paused = false;
    assert_eq!(call(&mut dex, token0(), token1(), 1_000, 1), None);
}

#[test]
fn reveal_against_an_empty_pool_has_no_price() {
    let mut dex = pool_with_commitment();
    dex.reserves1 = U256::zero();
    assert_eq!(
        reveal_at(&mut dex, 105, 1),
        Err(OakError::InsufficientInputAmount)
    );
}

#[test]
fn reveal_with_a_fee_above_one_hundred_percent_fails() {
    let mut dex = pool_with_commitment();
    dex.protocol_fee_bps = as_u256(10_001);
    assert_eq!(reveal_at(&mut dex, 105, 1), Err(OakError::FeeOverflow));
}

#[test]
fn reveal_keeps_the_reserves_above_the_floor() {
    let mut dex = pool_with_commitment();
    dex.min_liquidity = as_u256(18_188);
    assert_eq!(
        reveal_at(&mut dex, 105, 1),
        Err(OakError::InsufficientLiquidity)
    );
    dex.min_liquidity = as_u256(11_000);
    assert_eq!(reveal_at(&mut dex, 105, 1), Ok(()));
    assert_eq!(dex.reserves0, as_u256(11_000));
    assert_eq!(dex.reserves1, as_u256(18_187));
}

#[test]
fn reveal_reports_overflowing_counters() {
    let mut dex = pool_with_commitment();
    dex.total_volume_token0 = max();
    assert_eq!(reveal_at(&mut dex, 105, 1), Err(OakError::VolumeOverflow));
    dex.total_volume_token0 = U256::zero();
    dex.total_volume_token1 = max();
    assert_eq!(reveal_at(&mut dex, 105, 1), Err(OakError::VolumeOverflow));
    dex.total_volume_token1 = U256::zero();
    dex.accrued_treasury_fees_token0 = max();
    assert_eq!(reveal_at(&mut dex, 105, 1), Err(OakError::Overflow));
    dex.accrued_treasury_fees_token0 = U256::zero();
    dex.accrued_lp_fees_token0 = max();
    assert_eq!(reveal_at(&mut dex, 105, 1), Err(OakError::Overflow));
    dex.accrued_lp_fees_token0 = U256::zero();
    assert_eq!(reveal_at(&mut dex, 105, 1), Ok(()));
}

#[test]
fn reveal_reports_an_overflowing_price() {
    // amount_in * 9970 leaves 256 bits.
    let mut dex = OakDEX::new();
    dex.init(owner(), owner()).unwrap();
    dex.reserves0 = as_u256(10_000);
    dex.reserves1 = as_u256(20_000);
    let huge = U256::from_limbs([0, 0, 0, 1 << 60]);
    dex.commit_swap(at(100), compute_commit_hash(huge, as_u256(42)))
        .unwrap();
    let r = dex.reveal_swap(at(105), token0(), token1(), huge, as_u256(42), as_u256(1));
    assert_eq!(r.err(), Some(OakError::Overflow));
}

#[test]
fn reveal_from_the_zero_account_cannot_settle() {
    let mut dex = pool_with_commitment();
    let nobody = CallContext {
        sender: Address::zero(),
        ..at(100)
    };
    dex.commit_swap(nobody, compute_commit_hash(as_u256(1_000), as_u256(42)))
        .unwrap();
    let r = dex.reveal_swap(
        CallContext {
            sender: Address::zero(),
            ..at(105)
        },
        token0(),
        token1(),
        as_u256(1_000),
        as_u256(42),
        as_u256(1),
    );
    assert_eq!(r.err(), Some(OakError::InvalidAddress));
    assert!(dex.commitments.get(Address::zero()).activated);
    assert_eq!(dex.reserves0, as_u256(10_000));
}

#[test]
fn swap_reveal_with_hash_takes_the_hash_as_given() {
    let mut dex = pool_with_commitment();
    let stored = dex.commitments.get(trader()).hash;
    let wrong = dex.reveal_swap_with_hash(
        at(105),
        token0(),
        token1(),
        as_u256(1_000),
        as_u256(5),
        as_u256(1),
    );
    assert_eq!(wrong.err(), Some(OakError::InvalidHash));
    let right = dex
        .reveal_swap_with_hash(at(105), token0(), token1(), as_u256(1_000), stored, as_u256(1))
        .unwrap();
    assert_eq!(right.amount_out, as_u256(1_813));
}

#[test]
fn the_product_of_the_reserves_never_falls() {
    let cases: [(u64, u64, u64, u64); 6] = [
        (1_000, 10_000, 20_000, 30),
        (1, 10_000, 20_000, 30),
        (9_999, 3, 7, 0),
        (5, 1_000_000, 3, 1_000),
        (123_456, 789, 1_000_000_007, 999),
        (1_000_000, 1, 1_000_000, 10_000),
    ];
    for (amount_in, reserve0, reserve1, fee_bps) in cases {
        let mut dex = OakDEX::new();
        dex.reserves0 = as_u256(reserve0);
        dex.reserves1 = as_u256(reserve1);
        dex.protocol_fee_bps = as_u256(fee_bps);
        dex.commit_swap(at(1), compute_commit_hash(as_u256(amount_in), as_u256(7)))
            .unwrap();
        let r = dex.reveal_swap(
            at(6),
            token0(),
            token1(),
            as_u256(amount_in),
            as_u256(7),
            as_u256(1),
        );
        if r.is_ok() {
            let after = (dex.reserves0.l0 as u128) * (dex.reserves1.l0 as u128);
            let before = (reserve0 as u128) * (reserve1 as u128);
            assert!(after >= before);
        } else {
            assert_eq!(dex.reserves0, as_u256(reserve0));
            assert_eq!(dex.reserves1, as_u256(reserve1));
        }
    }
}
