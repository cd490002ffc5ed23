//! The log records of the exchange's events.
//!
//! Each function builds the record of one event: the indexed addresses as
//! 32-byte topics, and the other fields as 32-byte big-endian words of data.
//! The operations hand these records back; appending them to the ledger's
//! log is the caller's business.

use crate::address::Address;
use crate::constants::as_u256;
use crate::logic::append_bytes;
use crate::uint::{be_word, U256};
use vstd::prelude::*;

verus! {

/// A log record: up to three topics and a data blob.
#[derive(Debug, PartialEq, Eq)]
pub struct Log {
    pub topics: Vec<[u8; 32]>,
    pub data: Vec<u8>,
}

/// The model of a [`Log`].
pub struct LogView {
    pub topics: Seq<Seq<u8>>,
    pub data: Seq<u8>,
}

impl View for Log {
    type V = LogView;

    open spec fn view(&self) -> LogView {
        LogView { topics: self.topics@.map_values(|topic: [u8; 32]| topic@), data: self.data@ }
    }
}

/// The topic of an indexed address: the address as a 32-byte word.
pub open spec fn spec_topic(address: Address) -> Seq<u8> {
    be_word(address@)
}

/// The record of a commitment: the account; the hash and the block.
pub open spec fn spec_commit_swap_log(user: Address, hash: Seq<u8>, block_number: nat) -> LogView {
    LogView { topics: seq![spec_topic(user)], data: hash + be_word(block_number) }
}

/// The record of a revealed swap: the account; the amounts in and out and
/// the two parts of the fee.
pub open spec fn spec_reveal_swap_log(
    user: Address,
    amount_in: nat,
    amount_out: nat,
    treasury_fee: nat,
    lp_fee: nat,
) -> LogView {
    LogView {
        topics: seq![spec_topic(user)],
        data: be_word(amount_in) + be_word(amount_out) + be_word(treasury_fee) + be_word(lp_fee),
    }
}

/// The record of a deposit: the provider; the two amounts.
pub open spec fn spec_add_liquidity_log(provider: Address, amount0: nat, amount1: nat) -> LogView {
    LogView { topics: seq![spec_topic(provider)], data: be_word(amount0) + be_word(amount1) }
}

/// The record of a change of the fee: the new fee in basis points.
pub open spec fn spec_set_fee_log(new_fee_bps: nat) -> LogView {
    LogView { topics: Seq::empty(), data: be_word(new_fee_bps) }
}

/// The record of a change of the pause: one for paused, zero for running.
pub open spec fn spec_pause_changed_log(paused: bool) -> LogView {
    LogView { topics: Seq::empty(), data: be_word(if paused { 1nat } else { 0nat }) }
}

/// The record of a withdrawal of treasury fees: the treasury and the token;
/// the amount.
pub open spec fn spec_withdraw_treasury_fees_log(treasury: Address, token: Address, amount: nat)
    -> LogView {
    LogView { topics: seq![spec_topic(treasury), spec_topic(token)], data: be_word(amount) }
}

/// The record of a cancelled commitment: the account; the block.
pub open spec fn spec_cancel_commitment_log(user: Address, block_number: nat) -> LogView {
    LogView { topics: seq![spec_topic(user)], data: be_word(block_number) }
}

/// The record of a flash swap: the borrower and the two tokens; the amounts
/// lent and the fees paid.
pub open spec fn spec_flash_swap_log(
    borrower: Address,
    token0: Address,
    token1: Address,
    amount0_out: nat,
    amount1_out: nat,
    fee0: nat,
    fee1: nat,
) -> LogView {
    LogView {
        topics: seq![spec_topic(borrower), spec_topic(token0), spec_topic(token1)],
        data: be_word(amount0_out) + be_word(amount1_out) + be_word(fee0) + be_word(fee1),
    }
}

/// The topic of an indexed address.
fn topic(address: Address) -> (word: [u8; 32])
    ensures
        word@ == spec_topic(address),
{
    address.into_word().to_be_bytes()
}

/// Appends the 32-byte word of `value` to `data`.
fn append_word(data: &mut Vec<u8>, value: U256)
    ensures
        final(data)@ == old(data)@ + be_word(value@),
{
    let word = value.to_be_bytes();
    append_bytes(data, word.as_slice());
}

/// Builds the record of a commitment.
pub fn emit_commit_swap(user: Address, hash: [u8; 32], block_number: U256) -> (log: Log)
    ensures
        log@ == spec_commit_swap_log(user, hash@, block_number@),
{
    let mut topics: Vec<[u8; 32]> = Vec::new();
    topics.push(topic(user));
    let mut data: Vec<u8> = Vec::new();
    append_bytes(&mut data, hash.as_slice());
    append_word(&mut data, block_number);
    let log = Log { topics, data };
    assert(log@.topics =~= seq![spec_topic(user)]);
    log
}

/// Builds the record of a revealed swap.
pub fn emit_reveal_swap(
    user: Address,
    amount_in: U256,
    amount_out: U256,
    treasury_fee: U256,
    lp_fee: U256,
) -> (log: Log)
    ensures
        log@ == spec_reveal_swap_log(user, amount_in@, amount_out@, treasury_fee@, lp_fee@),
{
    let mut topics: Vec<[u8; 32]> = Vec::new();
    topics.push(topic(user));
    let mut data: Vec<u8> = Vec::new();
    append_word(&mut data, amount_in);
    append_word(&mut data, amount_out);
    append_word(&mut data, treasury_fee);
    append_word(&mut data, lp_fee);
    let log = Log { topics, data };
    assert(log@.topics =~= seq![spec_topic(user)]);
    log
}

/// Builds the record of a deposit.
pub fn emit_add_liquidity(provider: Address, amount0: U256, amount1: U256) -> (log: Log)
    ensures
        log@ == spec_add_liquidity_log(provider, amount0@, amount1@),
{
    let mut topics: Vec<[u8; 32]> = Vec::new();
    topics.push(topic(provider));
    let mut data: Vec<u8> = Vec::new();
    append_word(&mut data, amount0);
    append_word(&mut data, amount1);
    let log = Log { topics, data };
    assert(log@.topics =~= seq![spec_topic(provider)]);
    log
}

/// Builds the record of a change of the fee.
pub fn emit_set_fee(new_fee_bps: u16) -> (log: Log)
    ensures
        log@ == spec_set_fee_log(new_fee_bps as nat),
{
    let topics: Vec<[u8; 32]> = Vec::new();
    let mut data: Vec<u8> = Vec::new();
    append_word(&mut data, as_u256(new_fee_bps as u64));
    let log = Log { topics, data };
    assert(log@.topics =~= Seq::<Seq<u8>>::empty());
    log
}

/// Builds the record of a change of the pause.
pub fn emit_pause_changed(paused: bool) -> (log: Log)
    ensures
        log@ == spec_pause_changed_log(paused),
{
    let topics: Vec<[u8; 32]> = Vec::new();
    let mut data: Vec<u8> = Vec::new();
    let flag: u64 = if paused { 1 } else { 0 };
    append_word(&mut data, as_u256(flag));
    let log = Log { topics, data };
    assert(log@.topics =~= Seq::<Seq<u8>>::empty());
    log
}

/// Builds the record of a withdrawal of treasury fees.
pub fn emit_withdraw_treasury_fees(treasury: Address, token: Address, amount: U256) -> (log: Log)
    ensures
        log@ == spec_withdraw_treasury_fees_log(treasury, token, amount@),
{
    let mut topics: Vec<[u8; 32]> = Vec::new();
    topics.push(topic(treasury));
    topics.push(topic(token));
    let mut data: Vec<u8> = Vec::new();
    append_word(&mut data, amount);
    let log = Log { topics, data };
    assert(log@.topics =~= seq![spec_topic(treasury), spec_topic(token)]);
    log
}

/// Builds the record of a cancelled commitment.
pub fn emit_cancel_commitment(user: Address, block_number: U256) -> (log: Log)
    ensures
        log@ == spec_cancel_commitment_log(user, block_number@),
{
    let mut topics: Vec<[u8; 32]> = Vec::new();
    topics.push(topic(user));
    let mut data: Vec<u8> = Vec::new();
    append_word(&mut data, block_number);
    let log = Log { topics, data };
    assert(log@.topics =~= seq![spec_topic(user)]);
    log
}

/// Builds the record of a flash swap.
pub fn emit_flash_swap(
    borrower: Address,
    token0: Address,
    token1: Address,
    amount0_out: U256,
    amount1_out: U256,
    fee0: U256,
    fee1: U256,
) -> (log: Log)
    ensures
        log@ == spec_flash_swap_log(
            borrower,
            token0,
            token1,
            amount0_out@,
            amount1_out@,
            fee0@,
            fee1@,
        ),
{
    let mut topics: Vec<[u8; 32]> = Vec::new();
    topics.push(topic(borrower));
    topics.push(topic(token0));
    topics.push(topic(token1));
    let mut data: Vec<u8> = Vec::new();
    append_word(&mut data, amount0_out);
    append_word(&mut data, amount1_out);
    append_word(&mut data, fee0);
    append_word(&mut data, fee1);
    let log = Log { topics, data };
    assert(log@.topics =~= seq![spec_topic(borrower), spec_topic(token0), spec_topic(token1)]);
    log
}

} // verus!
