//! The transactional core of the Oak exchange: a constant-product market
//! maker behind a commit-reveal protocol, with flash loans and fee accrual.
//!
//! The state of the exchange is one [`state::OakDEX`], handed to every
//! operation by mutable reference. What the surrounding ledger knows about
//! the running call (the sender, the contract's own address, the block
//! number) comes in as a [`state::CallContext`]. The library makes no
//! outside call except to hash and to compute on 256-bit integers: where an
//! operation needs tokens moved or a borrower called, it returns what is to
//! be done, keeps the reentrancy guard, and is continued by a second call
//! once it has been done. An operation that is over hands back the record
//! of its event for the ledger's log.
//!
//! Every operation has a model, a `spec_` function on [`state::DexState`],
//! and a contract that ties it to the model. An operation that fails in its
//! first step leaves the state as it was; one that fails in a later step
//! changes nothing but the guard, which it releases.
//!
//! - [`uint`], [`address`]: 256-bit integers and 160-bit addresses.
//! - [`constants`], [`errors`]: protocol constants, error kinds and codes.
//! - [`crypto`]: Keccak-256.
//! - [`logic`]: pricing, fee split, commitment hash, the guard.
//! - [`state`]: the state, its model, the commitment registry.
//! - [`commit`]: committing, cancelling, the reveal window.
//! - [`swap`]: revealing and trading.
//! - [`liquidity`]: deposits.
//! - [`flash`]: flash swaps.
//! - [`admin`]: initialisation, fee and pause, treasury withdrawal.
//! - [`token`]: requests to token contracts.
//! - [`events`]: log records.

pub mod address;
pub mod admin;
pub mod commit;
pub mod constants;
pub mod crypto;
pub mod errors;
pub mod events;
pub mod flash;
pub mod liquidity;
pub mod logic;
pub mod state;
pub mod swap;
pub mod token;
pub mod uint;
