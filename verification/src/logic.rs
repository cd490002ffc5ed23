//! Pricing, fee accounting and the commitment hash.

use crate::address::Address;
use crate::constants::{as_u256, DEFAULT_FEE_BPS, FEE_DENOMINATOR, TREASURY_FEE_BPS};
use crate::crypto::{keccak, keccak256};
use crate::errors::{OakError, OakResult};
use crate::state::{spec_lock, spec_unlock, transition, OakDEX};
use crate::uint::{be_value, be_word, u256_max, U256};
use vstd::prelude::*;

verus! {

/// Lets only the owner through.
pub fn only_owner(sender: Address, owner: Address) -> (r: OakResult<()>)
    ensures
        r == (if sender == owner {
            Ok::<(), OakError>(())
        } else {
            Err::<(), OakError>(OakError::OnlyOwner)
        }),
{
    if sender != owner {
        return Err(OakError::OnlyOwner);
    }
    Ok(())
}

/// Refuses the zero address.
pub fn require_non_zero_address(addr: Address) -> (r: OakResult<()>)
    ensures
        r == (if addr == Address::spec_zero() {
            Err::<(), OakError>(OakError::InvalidAddress)
        } else {
            Ok::<(), OakError>(())
        }),
{
    if addr.is_zero() {
        return Err(OakError::InvalidAddress);
    }
    Ok(())
}

/// Takes the reentrancy guard, unless it is taken already.
pub fn lock_reentrancy_guard(dex: &mut OakDEX) -> (r: OakResult<()>)
    ensures
        transition(old(dex)@, final(dex)@, r, spec_lock(old(dex)@)),
{
    if dex.locked {
        return Err(OakError::ReentrantCall);
    }
    dex.locked = true;
    Ok(())
}

/// Releases the reentrancy guard.
///
/// Every guarded operation ends with this call. One that handed out
/// transfers to perform makes it in its finishing step; where a transfer
/// failed, the caller makes it in place of that step.
pub fn unlock_reentrancy_guard(dex: &mut OakDEX)
    ensures
        final(dex)@ == spec_unlock(old(dex)@),
{
    dex.locked = false;
}

/// The bytes that a commitment hashes: the 32-byte big-endian word of the
/// amount followed by that of the salt.
pub open spec fn commit_data(amount_in: nat, salt: nat) -> Seq<u8> {
    be_word(amount_in) + be_word(salt)
}

/// The commitment hash of `(amount_in, salt)`, as 32 bytes.
pub open spec fn commit_hash(amount_in: nat, salt: nat) -> Seq<u8> {
    keccak256(commit_data(amount_in, salt))
}

/// The commitment hash of `(amount_in, salt)`, read as a big-endian number.
pub open spec fn commit_hash_word(amount_in: nat, salt: nat) -> nat {
    be_value(commit_hash(amount_in, salt))
}

/// Appends `bytes` to `out`.
pub fn append_bytes(out: &mut Vec<u8>, bytes: &[u8])
    ensures
        final(out)@ == old(out)@ + bytes@,
{
    let mut i: usize = 0;
    while i < bytes.len()
        invariant
            i <= bytes.len(),
            out@ == old(out)@ + bytes@.subrange(0, i as int),
        decreases bytes.len() - i,
    {
        out.push(bytes[i]);
        i += 1;
    }
}

/// Encodes `(amount_in, salt)` as two 32-byte big-endian words.
pub fn encode_commit_data(amount_in: U256, salt: U256) -> (encoded: Vec<u8>)
    ensures
        encoded@ == commit_data(amount_in@, salt@),
{
    let mut encoded: Vec<u8> = Vec::with_capacity(64);
    let amount_word = amount_in.to_be_bytes();
    append_bytes(&mut encoded, amount_word.as_slice());
    let salt_word = salt.to_be_bytes();
    append_bytes(&mut encoded, salt_word.as_slice());
    encoded
}

/// Computes the commitment hash of `(amount_in, salt)`: the Keccak-256
/// digest of the two values as 32-byte big-endian words.
pub fn compute_commit_hash(amount_in: U256, salt: U256) -> (hash: [u8; 32])
    ensures
        hash@ == commit_hash(amount_in@, salt@),
{
    let encoded = encode_commit_data(amount_in, salt);
    keccak(encoded.as_slice())
}

/// The output of a constant-product swap, or the reason there is none.
///
/// With `w = amount_in * (10000 - fee_bps)`, the output is
/// `floor(w * reserve_out / (reserve_in * 10000 + w))`. Each intermediate
/// value has to fit in 256 bits.
pub open spec fn spec_get_amount_out_with_fee(
    amount_in: nat,
    reserve_in: nat,
    reserve_out: nat,
    fee_bps: nat,
) -> Result<nat, OakError> {
    if amount_in == 0 || reserve_in == 0 || reserve_out == 0 {
        Err(OakError::InsufficientInputAmount)
    } else if fee_bps > FEE_DENOMINATOR {
        Err(OakError::FeeOverflow)
    } else {
        let with_fee = amount_in * ((FEE_DENOMINATOR - fee_bps) as nat);
        let numerator = with_fee * reserve_out;
        let denominator = reserve_in * (FEE_DENOMINATOR as nat) + with_fee;
        if with_fee > u256_max() || numerator > u256_max() || denominator > u256_max() {
            Err(OakError::Overflow)
        } else {
            Ok(numerator / denominator)
        }
    }
}

/// Prices a swap against a constant-product pool with a proportional fee.
///
/// Rounds down, so the pool never pays out more than the curve allows.
pub fn get_amount_out_with_fee(
    amount_in: U256,
    reserve_in: U256,
    reserve_out: U256,
    fee_bps: U256,
) -> (r: OakResult<U256>)
    ensures
        match r {
            Ok(amount_out) => spec_get_amount_out_with_fee(
                amount_in@,
                reserve_in@,
                reserve_out@,
                fee_bps@,
            ) == Ok::<nat, OakError>(amount_out@),
            Err(e) => spec_get_amount_out_with_fee(amount_in@, reserve_in@, reserve_out@, fee_bps@)
                == Err::<nat, OakError>(e),
        },
{
    if amount_in.is_zero() || reserve_in.is_zero() || reserve_out.is_zero() {
        return Err(OakError::InsufficientInputAmount);
    }
    let fee_multiplier = match as_u256(FEE_DENOMINATOR).checked_sub(fee_bps) {
        Some(v) => v,
        None => {
            return Err(OakError::FeeOverflow);
        },
    };
    let amount_in_with_fee = match amount_in.checked_mul(fee_multiplier) {
        Some(v) => v,
        None => {
            return Err(OakError::Overflow);
        },
    };
    let numerator = match amount_in_with_fee.checked_mul(reserve_out) {
        Some(v) => v,
        None => {
            return Err(OakError::Overflow);
        },
    };
    let denominator_part1 = match reserve_in.checked_mul(as_u256(FEE_DENOMINATOR)) {
        Some(v) => v,
        None => {
            return Err(OakError::Overflow);
        },
    };
    let denominator = match denominator_part1.checked_add(amount_in_with_fee) {
        Some(v) => v,
        None => {
            return Err(OakError::Overflow);
        },
    };
    match numerator.checked_div(denominator) {
        Some(amount_out) => Ok(amount_out),
        None => Err(OakError::DivisionByZero),
    }
}

/// The fee on `amount_in` at `fee_bps`, rounded down.
pub open spec fn spec_total_fee(amount_in: nat, fee_bps: nat) -> nat {
    amount_in * fee_bps / (FEE_DENOMINATOR as nat)
}

/// The treasury's part of a fee, rounded down: twelve thirtieths.
pub open spec fn spec_treasury_share(total_fee: nat) -> nat {
    total_fee * (TREASURY_FEE_BPS as nat) / (DEFAULT_FEE_BPS as nat)
}

/// The split of a fee on `amount_in`: what is left of the input, the
/// treasury's part and the liquidity providers' part.
pub open spec fn spec_compute_fee_split(amount_in: nat, fee_bps: nat) -> Result<
    (nat, nat, nat),
    OakError,
> {
    let total_fee = spec_total_fee(amount_in, fee_bps);
    let treasury_fee = spec_treasury_share(total_fee);
    if amount_in == 0 {
        Ok((0, 0, 0))
    } else if amount_in * fee_bps > u256_max() {
        Err(OakError::Overflow)
    } else if total_fee == 0 {
        Ok((amount_in, 0, 0))
    } else if total_fee > amount_in {
        Err(OakError::Overflow)
    } else {
        Ok(((amount_in - total_fee) as nat, treasury_fee, (total_fee - treasury_fee) as nat))
    }
}

/// The split loses nothing to rounding: at a fee of at most one hundred
/// percent, and where the fee product fits in 256 bits, there is a split,
/// and the treasury's and the providers' parts add up to the whole fee,
/// `floor(amount_in * fee_bps / 10000)`.
pub proof fn lemma_fee_split_is_exact(amount_in: nat, fee_bps: nat)
    requires
        fee_bps <= FEE_DENOMINATOR,
        amount_in * fee_bps <= u256_max(),
    ensures
        spec_compute_fee_split(amount_in, fee_bps) matches Ok(split) && split.1 + split.2
            == amount_in * fee_bps / (FEE_DENOMINATOR as nat) && split.0 + split.1 + split.2
            == amount_in,
{
    assert(amount_in * fee_bps <= amount_in * 10000) by (nonlinear_arith)
        requires
            fee_bps <= 10000,
    ;
    if amount_in == 0 {
        assert(amount_in * fee_bps == 0) by (nonlinear_arith)
            requires
                amount_in == 0,
        ;
    }
}

/// Computes the fee on `amount_in` and splits it between the treasury and
/// the liquidity providers.
///
/// The providers' part is what is left of the fee after the treasury's, so
/// the two parts always add up to the fee.
pub fn compute_fee_split(amount_in: U256, fee_bps: U256) -> (r: OakResult<(U256, U256, U256)>)
    ensures
        match r {
            Ok((effective_in, treasury_fee, lp_fee)) => {
                &&& spec_compute_fee_split(amount_in@, fee_bps@) == Ok::<(nat, nat, nat), OakError>(
                    (effective_in@, treasury_fee@, lp_fee@),
                )
                &&& treasury_fee@ + lp_fee@ == spec_total_fee(amount_in@, fee_bps@)
            },
            Err(e) => spec_compute_fee_split(amount_in@, fee_bps@) == Err::<
                (nat, nat, nat),
                OakError,
            >(e),
        },
{
    if amount_in.is_zero() {
        assert(spec_total_fee(amount_in@, fee_bps@) == 0) by (nonlinear_arith)
            requires
                amount_in@ == 0,
        ;
        return Ok((U256::zero(), U256::zero(), U256::zero()));
    }
    let product = match amount_in.checked_mul(fee_bps) {
        Some(v) => v,
        None => {
            return Err(OakError::Overflow);
        },
    };
    let total_fee = match product.checked_div(as_u256(FEE_DENOMINATOR)) {
        Some(v) => v,
        None => {
            return Err(OakError::DivisionByZero);
        },
    };
    if total_fee.is_zero() {
        return Ok((amount_in, U256::zero(), U256::zero()));
    }
    let treasury_product = match total_fee.checked_mul(as_u256(TREASURY_FEE_BPS)) {
        Some(v) => v,
        None => {
            return Err(OakError::Overflow);
        },
    };
    let treasury_fee = match treasury_product.checked_div(as_u256(DEFAULT_FEE_BPS)) {
        Some(v) => v,
        None => {
            return Err(OakError::DivisionByZero);
        },
    };
    let lp_fee = match total_fee.checked_sub(treasury_fee) {
        Some(v) => v,
        None => {
            return Err(OakError::Overflow);
        },
    };
    let effective_in = match amount_in.checked_sub(total_fee) {
        Some(v) => v,
        None => {
            return Err(OakError::Overflow);
        },
    };
    Ok((effective_in, treasury_fee, lp_fee))
}

} // verus!
