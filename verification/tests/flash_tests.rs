//! Flash swaps.

use oak_protocol::address::Address;
use oak_protocol::constants::as_u256;
use oak_protocol::errors::OakError;
use oak_protocol::events::emit_flash_swap;
use oak_protocol::flash::{encode_flash_callback, FlashDebt, FlashLoan, FLASH_CALLBACK_SIGNATURE};
use oak_protocol::state::{CallContext, OakDEX};
use oak_protocol::token::Transfer;
use oak_protocol::uint::U256;

fn borrower() -> Address {
    Address::from_limbs(0xb0, 0, 0)
}

fn token0() -> Address {
    Address::from_limbs(0, 0, 0xa0)
}

fn token1() -> Address {
    Address::from_limbs(0, 0, 0xa1)
}

fn ctx() -> CallContext {
    CallContext {
        sender: borrower(),
        contract: Address::from_limbs(0xdec, 0, 0),
        block_number: as_u256(1),
    }
}

fn max() -> U256 {
    U256::from_limbs([u64::MAX; 4])
}

/// A pool of 100000 token0 and 200000 token1 at 30 basis points, with a
/// floor of 1000.
fn pool() -> OakDEX {
    let mut dex = OakDEX::new();
    dex.init(Address::from_limbs(0x0a, 0, 0), Address::from_limbs(0x0b, 0, 0))
        .unwrap();
    dex.reserves0 = as_u256(100_000);
    dex.reserves1 = as_u256(200_000);
    dex.min_liquidity = as_u256(1_000);
    dex
}

fn borrow(dex: &mut OakDEX, amount0: u64, amount1: u64) -> (FlashLoan, FlashDebt) {
    let loan = dex
        .flash_swap(ctx(), token0(), token1(), as_u256(amount0), as_u256(amount1))
        .unwrap();
    let debt = dex.flash_swap_debt(&loan).unwrap();
    (loan, debt)
}

#[test]
fn a_loan_names_what_goes_out() {
    let mut dex = pool();
    let loan = dex
        .flash_swap(ctx(), token0(), token1(), as_u256(10_000), as_u256(0))
        .unwrap();
    assert_eq!(
        loan.lend0,
        Some(Transfer {
            token: token0(),
            to: borrower(),
            amount: as_u256(10_000),
        })
    );
    assert_eq!(loan.lend1, None);
    assert_eq!(loan.borrower, borrower());
    assert_eq!(loan.token0, token0());
    assert_eq!(loan.token1, token1());
    assert_eq!(loan.amount0_out, as_u256(10_000));
    assert!(loan.amount1_out.is_zero());
    assert_eq!(loan.reserve0_after_lend, as_u256(90_000));
    assert_eq!(loan.reserve1_after_lend, as_u256(200_000));
    assert_eq!(loan.k_before, as_u256(20_000_000_000));
    assert_eq!(loan.fee_bps, as_u256(30));
    // Granting the loan only takes the guard.
    assert!(dex.locked);
    assert_eq!(dex.reserves0, as_u256(100_000));
    assert_eq!(dex.reserves1, as_u256(200_000));
}

#[test]
fn the_debt_is_the_loan_and_the_fee() {
    let mut dex = pool();
    let (_loan, debt) = borrow(&mut dex, 10_000, 0);
    // 10000 * 30 / 10000 = 30
    assert_eq!(debt.fee0, as_u256(30));
    assert_eq!(debt.amount0_owed, as_u256(10_030));
    assert!(debt.fee1.is_zero());
    assert!(debt.amount1_owed.is_zero());
    assert!(dex.locked);

    let mut both = pool();
    let (_loan, debt) = borrow(&mut both, 3_333, 50_000);
    // 3333 * 30 / 10000 = 9.999 -> 9; 50000 * 30 / 10000 = 150
    assert_eq!(debt.fee0, as_u256(9));
    assert_eq!(debt.amount0_owed, as_u256(3_342));
    assert_eq!(debt.fee1, as_u256(150));
    assert_eq!(debt.amount1_owed, as_u256(50_150));
}

#[test]
fn the_fee_on_a_huge_loan_overflows() {
    let mut dex = OakDEX::new();
    dex.protocol_fee_bps = as_u256(30);
    dex.reserves0 = max();
    dex.reserves1 = as_u256(1);
    let loan = dex
        .flash_swap(ctx(), token0(), token1(), max(), as_u256(0))
        .unwrap();
    assert!(dex.locked);
    assert_eq!(dex.flash_swap_debt(&loan).err(), Some(OakError::Overflow));
    // The failure releases the guard.
    assert!(!dex.locked);
    assert_eq!(dex.reserves0, max());
}

#[test]
fn repaying_what_is_owed_does_not_raise_the_product_enough() {
    let mut dex = pool();
    let (loan, debt) = borrow(&mut dex, 10_000, 0);
    // k_after = 100030 * 200000 = 20_006_000_000
    // k_min   = 20_000_000_000 * 10030 / 10000 = 20_060_000_000
    assert_eq!(
        dex.flash_swap_settle(&loan, &debt, as_u256(100_030), as_u256(200_000)).err(),
        Some(OakError::InsufficientLiquidity)
    );
    assert!(!dex.locked);
    assert_eq!(dex.reserves0, as_u256(100_000));
    assert_eq!(dex.reserves1, as_u256(200_000));
    assert!(dex.total_volume_token0.is_zero());
    assert!(dex.accrued_treasury_fees_token0.is_zero());
}

#[test]
fn repaying_less_than_is_owed_fails() {
    let mut dex = pool();
    let (loan, debt) = borrow(&mut dex, 10_000, 0);
    assert_eq!(
        dex.flash_swap_settle(&loan, &debt, as_u256(100_029), as_u256(200_000)).err(),
        Some(OakError::InsufficientLiquidity)
    );
    assert!(!dex.locked);

    let mut other = pool();
    let (loan, debt) = borrow(&mut other, 10_000, 0);
    // Token1 was not lent, but its balance has to be there.
    assert_eq!(
        other.flash_swap_settle(&loan, &debt, as_u256(200_000), as_u256(199_999)).err(),
        Some(OakError::InsufficientLiquidity)
    );
}

#[test]
fn the_product_may_just_reach_the_minimum() {
    let mut dex = pool();
    let (loan, debt) = borrow(&mut dex, 10_000, 0);
    // 100299 * 200000 = 20_059_800_000 < 20_060_000_000
    assert_eq!(
        dex.flash_swap_settle(&loan, &debt, as_u256(100_299), as_u256(200_000)).err(),
        Some(OakError::InsufficientLiquidity)
    );
    let (loan, debt) = borrow(&mut dex, 10_000, 0);
    // 100300 * 200000 = 20_060_000_000
    assert_eq!(
        dex.flash_swap_settle(&loan, &debt, as_u256(100_300), as_u256(200_000)),
        Ok(emit_flash_swap(
            borrower(),
            token0(),
            token1(),
            as_u256(10_000),
            as_u256(0),
            as_u256(30),
            as_u256(0),
        ))
    );
    assert!(!dex.locked);
    assert_eq!(dex.reserves0, as_u256(100_300));
    assert_eq!(dex.reserves1, as_u256(200_000));
    assert_eq!(dex.total_volume_token0, as_u256(10_000));
    assert!(dex.total_volume_token1.is_zero());
    // The fee of 30 on token0 is split 12 to 18.
    assert_eq!(dex.accrued_treasury_fees_token0, as_u256(12));
    assert_eq!(dex.accrued_lp_fees_token0, as_u256(18));
}

#[test]
fn the_fee_on_token1_accrues_to_nobody() {
    let mut dex = pool();
    let (loan, debt) = borrow(&mut dex, 0, 20_000);
    assert_eq!(debt.fee1, as_u256(60));
    assert_eq!(debt.amount1_owed, as_u256(20_060));
    // k_min = 20_060_000_000 = 100000 * 200600
    assert!(dex
        .flash_swap_settle(&loan, &debt, as_u256(100_000), as_u256(200_600))
        .is_ok());
    assert_eq!(dex.reserves1, as_u256(200_600));
    assert_eq!(dex.total_volume_token1, as_u256(20_000));
    assert!(dex.total_volume_token0.is_zero());
    assert!(dex.accrued_treasury_fees_token0.is_zero());
    assert!(dex.accrued_lp_fees_token0.is_zero());
}

#[test]
fn a_repayment_above_the_debt_stays_in_the_reserves() {
    let mut dex = pool();
    let (loan, debt) = borrow(&mut dex, 10_000, 50_000);
    assert!(dex
        .flash_swap_settle(&loan, &debt, as_u256(150_000), as_u256(250_000))
        .is_ok());
    assert_eq!(dex.reserves0, as_u256(150_000));
    assert_eq!(dex.reserves1, as_u256(250_000));
    assert_eq!(dex.total_volume_token0, as_u256(10_000));
    assert_eq!(dex.total_volume_token1, as_u256(50_000));
}

#[test]
fn a_loan_checks_its_arguments_in_order() {
    let mut dex = pool();
    dex.paused = true;
    dex.locked = true;
    let zero = Address::zero();
    let call = |dex: &mut OakDEX, t0: Address, t1: Address, a0: u64, a1: u64| {
        dex.flash_swap(ctx(), t0, t1, as_u256(a0), as_u256(a1)).err()
    };
    assert_eq!(call(&mut dex, zero, zero, 0, 0), Some(OakError::ReentrantCall));
    dex.locked = false;
    assert_eq!(call(&mut dex, zero, token1(), 0, 0), Some(OakError::InvalidAddress));
    assert_eq!(call(&mut dex, token0(), zero, 0, 0), Some(OakError::InvalidAddress));
    assert_eq!(
        call(&mut dex, token0(), token1(), 0, 0),
        Some(OakError::InsufficientInputAmount)
    );
    assert_eq!(call(&mut dex, token0(), token1(), 1, 0), Some(OakError::Paused));
    assert!(!dex.locked);
    dex.paused = false;
    assert_eq!(call(&mut dex, token0(), token1(), 1, 0), None);
    assert!(dex.locked);
}

#[test]
fn a_loan_cannot_exceed_the_reserves_or_break_the_floor() {
    let mut dex = pool();
    let call = |dex: &mut OakDEX, a0: u64, a1: u64| {
        dex.flash_swap(ctx(), token0(), token1(), as_u256(a0), as_u256(a1))
            .err()
    };
    assert_eq!(call(&mut dex, 100_001, 0), Some(OakError::InsufficientLiquidity));
    assert_eq!(call(&mut dex, 0, 200_001), Some(OakError::InsufficientLiquidity));
    // 100000 - 99001 = 999 < 1000
    assert_eq!(call(&mut dex, 99_001, 0), Some(OakError::InsufficientLiquidity));
    assert_eq!(call(&mut dex, 0, 199_001), Some(OakError::InsufficientLiquidity));
    assert!(!dex.locked);
    assert_eq!(call(&mut dex, 99_000, 199_000), None);
}

#[test]
fn a_loan_from_a_pool_with_an_overflowing_product_is_refused() {
    let mut dex = OakDEX::new();
    dex.reserves0 = U256::from_limbs([0, 0, 1, 0]);
    dex.reserves1 = U256::from_limbs([0, 0, 1, 0]);
    assert_eq!(
        dex.flash_swap(ctx(), token0(), token1(), as_u256(1), as_u256(0))
            .err(),
        Some(OakError::Overflow)
    );
}

#[test]
fn a_loan_to_the_zero_account_is_refused() {
    let mut dex = pool();
    let nobody = CallContext {
        sender: Address::zero(),
        ..ctx()
    };
    assert_eq!(
        dex.flash_swap(nobody, token0(), token1(), as_u256(1), as_u256(0))
            .err(),
        Some(OakError::InvalidAddress)
    );
    assert!(!dex.locked);
}

#[test]
fn settling_reports_overflowing_counters() {
    let mut dex = pool();
    let (loan, debt) = borrow(&mut dex, 10_000, 0);
    dex.total_volume_token0 = max();
    assert_eq!(
        dex.flash_swap_settle(&loan, &debt, as_u256(100_300), as_u256(200_000)).err(),
        Some(OakError::VolumeOverflow)
    );
    assert!(!dex.locked);
    assert_eq!(dex.reserves0, as_u256(100_000));
    dex.total_volume_token0 = U256::zero();
    dex.accrued_lp_fees_token0 = max();
    assert_eq!(
        dex.flash_swap_settle(&loan, &debt, as_u256(100_300), as_u256(200_000)).err(),
        Some(OakError::Overflow)
    );
    // Token1 was not lent, so its full counter does not matter.
    dex.accrued_lp_fees_token0 = U256::zero();
    dex.total_volume_token1 = max();
    assert!(dex
        .flash_swap_settle(&loan, &debt, as_u256(100_300), as_u256(200_000))
        .is_ok());
}

#[test]
fn settling_reports_an_overflowing_product() {
    let mut dex = pool();
    let (loan, debt) = borrow(&mut dex, 10_000, 0);
    assert_eq!(
        dex.flash_swap_settle(&loan, &debt, max(), as_u256(200_000)).err(),
        Some(OakError::Overflow)
    );
    assert!(!dex.locked);
}

#[test]
fn callback_call_is_selector_words_and_padded_data() {
    let data = [1u8, 2, 3];
    let call = encode_flash_callback(as_u256(10_030), as_u256(0), &data);
    let digest = stylus_sdk::alloy_primitives::keccak256(
        "oakFlashSwapCallback(uint256,uint256,bytes)".as_bytes(),
    );
    assert_eq!(FLASH_CALLBACK_SIGNATURE, "oakFlashSwapCallback(uint256,uint256,bytes)");
    let mut expected = digest.0[0..4].to_vec();
    let mut word = [0u8; 32];
    word[30] = 0x27;
    word[31] = 0x2e;
    expected.extend_from_slice(&word);
    expected.extend_from_slice(&[0u8; 32]);
    let mut offset = [0u8; 32];
    offset[31] = 96;
    expected.extend_from_slice(&offset);
    let mut length = [0u8; 32];
    length[31] = 3;
    expected.extend_from_slice(&length);
    expected.extend_from_slice(&data);
    expected.extend_from_slice(&[0u8; 29]);
    assert_eq!(call.len(), 4 + 4 * 32 + 32);
    assert_eq!(call, expected);
}

#[test]
fn callback_data_of_whole_words_is_not_padded() {
    let empty = encode_flash_callback(as_u256(1), as_u256(2), &[]);
    assert_eq!(empty.len(), 4 + 4 * 32);
    assert_eq!(empty[4 + 31], 1);
    assert_eq!(empty[4 + 63], 2);
    assert_eq!(empty[4 + 95], 96);
    assert_eq!(empty[4 + 127], 0);

    let data = [7u8; 32];
    let whole = encode_flash_callback(as_u256(1), as_u256(2), &data);
    assert_eq!(whole.len(), 4 + 4 * 32 + 32);
    assert_eq!(whole[4 + 127], 32);
    assert_eq!(&whole[4 + 128..], &data);

    let longer = [9u8; 33];
    let padded = encode_flash_callback(as_u256(1), as_u256(2), &longer);
    assert_eq!(padded.len(), 4 + 4 * 32 + 64);
    assert_eq!(&padded[4 + 128..4 + 128 + 33], &longer);
    assert_eq!(padded[4 + 128 + 33..].to_vec(), vec![0u8; 31]);
}
