//! Error kinds and their wire codes.
//!
//! Every failure of the protocol is one [`OakError`]. On the wire an error is
//! the ASCII text of its code, which [`OakError::code`] produces.

use vstd::prelude::*;
use vstd::string::*;

verus! {

/// The code of [`OakError::AlreadyInitialized`].
pub const ERR_ALREADY_INITIALIZED: &'static str = "ALREADY_INITIALIZED";

/// The code of [`OakError::InvalidOwner`].
pub const ERR_INVALID_OWNER: &'static str = "INVALID_OWNER";

/// The code of [`OakError::OnlyOwner`].
pub const ERR_ONLY_OWNER: &'static str = "ONLY_OWNER";

/// The code of [`OakError::FeeTooHigh`].
pub const ERR_FEE_TOO_HIGH: &'static str = "FEE_TOO_HIGH";

/// The code of [`OakError::Paused`].
pub const ERR_PAUSED: &'static str = "PAUSED";

/// The code of [`OakError::Amount0Zero`].
pub const ERR_AMOUNT0_ZERO: &'static str = "AMOUNT0_ZERO";

/// The code of [`OakError::Amount1Zero`].
pub const ERR_AMOUNT1_ZERO: &'static str = "AMOUNT1_ZERO";

/// The code of [`OakError::LiquidityOverflow`].
pub const ERR_LIQUIDITY_OVERFLOW: &'static str = "LIQUIDITY_OVERFLOW";

/// The code of [`OakError::Reserve0Overflow`].
pub const ERR_RESERVE0_OVERFLOW: &'static str = "RESERVE0_OVERFLOW";

/// The code of [`OakError::Reserve1Overflow`].
pub const ERR_RESERVE1_OVERFLOW: &'static str = "RESERVE1_OVERFLOW";

/// The code of [`OakError::InsufficientLiquidity`].
pub const ERR_INSUFFICIENT_LIQUIDITY: &'static str = "INSUFFICIENT_LIQUIDITY";

/// The code of [`OakError::VolumeOverflow`].
pub const ERR_VOLUME_OVERFLOW: &'static str = "VOLUME_OVERFLOW";

/// The code of [`OakError::InsufficientInputAmount`].
pub const ERR_INSUFFICIENT_INPUT_AMOUNT: &'static str = "INSUFFICIENT_INPUT_AMOUNT";

/// The code of [`OakError::InsufficientOutputAmount`].
pub const ERR_INSUFFICIENT_OUTPUT_AMOUNT: &'static str = "INSUFFICIENT_OUTPUT_AMOUNT";

/// The code of [`OakError::Overflow`].
pub const ERR_OVERFLOW: &'static str = "OVERFLOW";

/// The code of [`OakError::FeeOverflow`].
pub const ERR_FEE_OVERFLOW: &'static str = "FEE_OVERFLOW";

/// The code of [`OakError::DivisionByZero`].
pub const ERR_DIVISION_BY_ZERO: &'static str = "DIVISION_BY_ZERO";

/// The code of [`OakError::InvalidHash`].
pub const ERR_INVALID_HASH: &'static str = "INVALID_HASH";

/// The code of [`OakError::CommitNotFound`].
pub const ERR_COMMIT_NOT_FOUND: &'static str = "COMMIT_NOT_FOUND";

/// The code of [`OakError::BlockOverflow`].
pub const ERR_BLOCK_OVERFLOW: &'static str = "BLOCK_OVERFLOW";

/// The code of [`OakError::TooEarly`].
pub const ERR_TOO_EARLY: &'static str = "TOO_EARLY";

/// The code of [`OakError::CommitmentExpired`].
pub const ERR_COMMITMENT_EXPIRED: &'static str = "COMMITMENT_EXPIRED";

/// The code of [`OakError::InvalidAddress`].
pub const ERR_INVALID_ADDRESS: &'static str = "INVALID_ADDRESS";

/// The code of [`OakError::TokenTransferFailed`].
pub const ERR_TOKEN_TRANSFER_FAILED: &'static str = "TOKEN_TRANSFER_FAILED";

/// The code of [`OakError::InsufficientBalance`].
pub const ERR_INSUFFICIENT_BALANCE: &'static str = "INSUFFICIENT_BALANCE";

/// The code of [`OakError::ZeroAmount`].
pub const ERR_ZERO_AMOUNT: &'static str = "ZERO_AMOUNT";

/// The code of [`OakError::ReentrantCall`].
pub const ERR_REENTRANT_CALL: &'static str = "REENTRANT_CALL";

/// The code of [`OakError::NoTreasuryFees`].
pub const ERR_NO_TREASURY_FEES: &'static str = "NO_TREASURY_FEES";

/// The code of [`OakError::InvalidToken`].
pub const ERR_INVALID_TOKEN: &'static str = "INVALID_TOKEN";

/// The result of every fallible operation of the protocol.
pub type OakResult<T> = Result<T, OakError>;

/// What went wrong.
#[derive(Clone, Copy, Debug, PartialEq, Eq, Structural)]
pub enum OakError {
    /// The contract has an owner already.
    AlreadyInitialized,
    /// The owner or the treasury is the zero address.
    InvalidOwner,
    /// The caller is not the owner.
    OnlyOwner,
    /// The requested fee is above the allowed maximum.
    FeeTooHigh,
    /// The contract is paused.
    Paused,
    /// The amount of token0 is zero.
    Amount0Zero,
    /// The amount of token1 is zero.
    Amount1Zero,
    /// The sum of the two reserves does not fit in 256 bits.
    LiquidityOverflow,
    /// The reserve of token0 would not fit in 256 bits.
    Reserve0Overflow,
    /// The reserve of token1 would not fit in 256 bits.
    Reserve1Overflow,
    /// The pool cannot cover the request, or would fall below its floor.
    InsufficientLiquidity,
    /// A volume counter would not fit in 256 bits.
    VolumeOverflow,
    /// An input amount or a reserve is zero.
    InsufficientInputAmount,
    /// The output is below the caller's minimum.
    InsufficientOutputAmount,
    /// An intermediate result does not fit in 256 bits, or is negative.
    Overflow,
    /// The fee rate is above one hundred percent.
    FeeOverflow,
    /// A divisor is zero.
    DivisionByZero,
    /// The commitment hash is zero, or the revealed values do not hash to it.
    InvalidHash,
    /// The account has no active commitment.
    CommitNotFound,
    /// A block number does not fit in 256 bits.
    BlockOverflow,
    /// The minimum delay since the commitment has not passed.
    TooEarly,
    /// The commitment is older than the maximum age.
    CommitmentExpired,
    /// An address is the zero address.
    InvalidAddress,
    /// A token contract reported that a transfer did not happen.
    TokenTransferFailed,
    /// An account's balance does not cover a transfer.
    InsufficientBalance,
    /// An amount is zero.
    ZeroAmount,
    /// A guarded operation was entered while another one was running.
    ReentrantCall,
    /// No treasury fees have accrued.
    NoTreasuryFees,
    /// The token is not one that the pool trades.
    InvalidToken,
}

/// Copies an error code into an owned byte vector.
pub fn err(msg: &[u8]) -> (code: Vec<u8>)
    ensures
        code@ == msg@,
{
    let mut code: Vec<u8> = Vec::with_capacity(msg.len());
    let mut i: usize = 0;
    while i < msg.len()
        invariant
            i <= msg.len(),
            code@ == msg@.subrange(0, i as int),
        decreases msg.len() - i,
    {
        code.push(msg[i]);
        i += 1;
    }
    code
}

impl OakError {
    /// The text of the error's code.
    pub open spec fn spec_name(self) -> Seq<char> {
        match self {
            OakError::AlreadyInitialized => ERR_ALREADY_INITIALIZED@,
            OakError::InvalidOwner => ERR_INVALID_OWNER@,
            OakError::OnlyOwner => ERR_ONLY_OWNER@,
            OakError::FeeTooHigh => ERR_FEE_TOO_HIGH@,
            OakError::Paused => ERR_PAUSED@,
            OakError::Amount0Zero => ERR_AMOUNT0_ZERO@,
            OakError::Amount1Zero => ERR_AMOUNT1_ZERO@,
            OakError::LiquidityOverflow => ERR_LIQUIDITY_OVERFLOW@,
            OakError::Reserve0Overflow => ERR_RESERVE0_OVERFLOW@,
            OakError::Reserve1Overflow => ERR_RESERVE1_OVERFLOW@,
            OakError::InsufficientLiquidity => ERR_INSUFFICIENT_LIQUIDITY@,
            OakError::VolumeOverflow => ERR_VOLUME_OVERFLOW@,
            OakError::InsufficientInputAmount => ERR_INSUFFICIENT_INPUT_AMOUNT@,
            OakError::InsufficientOutputAmount => ERR_INSUFFICIENT_OUTPUT_AMOUNT@,
            OakError::Overflow => ERR_OVERFLOW@,
            OakError::FeeOverflow => ERR_FEE_OVERFLOW@,
            OakError::DivisionByZero => ERR_DIVISION_BY_ZERO@,
            OakError::InvalidHash => ERR_INVALID_HASH@,
            OakError::CommitNotFound => ERR_COMMIT_NOT_FOUND@,
            OakError::BlockOverflow => ERR_BLOCK_OVERFLOW@,
            OakError::TooEarly => ERR_TOO_EARLY@,
            OakError::CommitmentExpired => ERR_COMMITMENT_EXPIRED@,
            OakError::InvalidAddress => ERR_INVALID_ADDRESS@,
            OakError::TokenTransferFailed => ERR_TOKEN_TRANSFER_FAILED@,
            OakError::InsufficientBalance => ERR_INSUFFICIENT_BALANCE@,
            OakError::ZeroAmount => ERR_ZERO_AMOUNT@,
            OakError::ReentrantCall => ERR_REENTRANT_CALL@,
            OakError::NoTreasuryFees => ERR_NO_TREASURY_FEES@,
            OakError::InvalidToken => ERR_INVALID_TOKEN@,
        }
    }

    /// The text of the error's code.
    pub fn name(&self) -> (text: &'static str)
        ensures
            text@ == self.spec_name(),
    {
        match self {
            OakError::AlreadyInitialized => ERR_ALREADY_INITIALIZED,
            OakError::InvalidOwner => ERR_INVALID_OWNER,
            OakError::OnlyOwner => ERR_ONLY_OWNER,
            OakError::FeeTooHigh => ERR_FEE_TOO_HIGH,
            OakError::Paused => ERR_PAUSED,
            OakError::Amount0Zero => ERR_AMOUNT0_ZERO,
            OakError::Amount1Zero => ERR_AMOUNT1_ZERO,
            OakError::LiquidityOverflow => ERR_LIQUIDITY_OVERFLOW,
            OakError::Reserve0Overflow => ERR_RESERVE0_OVERFLOW,
            OakError::Reserve1Overflow => ERR_RESERVE1_OVERFLOW,
            OakError::InsufficientLiquidity => ERR_INSUFFICIENT_LIQUIDITY,
            OakError::VolumeOverflow => ERR_VOLUME_OVERFLOW,
            OakError::InsufficientInputAmount => ERR_INSUFFICIENT_INPUT_AMOUNT,
            OakError::InsufficientOutputAmount => ERR_INSUFFICIENT_OUTPUT_AMOUNT,
            OakError::Overflow => ERR_OVERFLOW,
            OakError::FeeOverflow => ERR_FEE_OVERFLOW,
            OakError::DivisionByZero => ERR_DIVISION_BY_ZERO,
            OakError::InvalidHash => ERR_INVALID_HASH,
            OakError::CommitNotFound => ERR_COMMIT_NOT_FOUND,
            OakError::BlockOverflow => ERR_BLOCK_OVERFLOW,
            OakError::TooEarly => ERR_TOO_EARLY,
            OakError::CommitmentExpired => ERR_COMMITMENT_EXPIRED,
            OakError::InvalidAddress => ERR_INVALID_ADDRESS,
            OakError::TokenTransferFailed => ERR_TOKEN_TRANSFER_FAILED,
            OakError::InsufficientBalance => ERR_INSUFFICIENT_BALANCE,
            OakError::ZeroAmount => ERR_ZERO_AMOUNT,
            OakError::ReentrantCall => ERR_REENTRANT_CALL,
            OakError::NoTreasuryFees => ERR_NO_TREASURY_FEES,
            OakError::InvalidToken => ERR_INVALID_TOKEN,
        }
    }

    /// The error as it goes over the wire: the bytes of its code.
    pub fn code(&self) -> (bytes: Vec<u8>)
        ensures
            bytes@ == vstd::utf8::encode_utf8(self.spec_name()),
    {
        err(self.name().as_bytes())
    }
}

} // verus!
