//! The commit-reveal registry.
//!
//! An account first commits to the hash of `(amount_in, salt)` and reveals
//! both values in a later block. A reveal is accepted from
//! [`COMMIT_REVEAL_DELAY`] blocks after the commitment until
//! [`MAX_COMMITMENT_AGE`] blocks after it. Expiry is not swept: it is looked
//! at when the account reveals or cancels.

use crate::address::Address;
use crate::constants::{as_u256, COMMIT_REVEAL_DELAY, MAX_COMMITMENT_AGE};
use crate::errors::{OakError, OakResult};
use crate::events::{
    emit_cancel_commitment,
    emit_commit_swap,
    spec_cancel_commitment_log,
    spec_commit_swap_log,
    Log,
};
use crate::logic::{commit_hash_word, compute_commit_hash};
use crate::state::{transition, CallContext, Commitment, CommitmentView, DexState, OakDEX};
use crate::uint::{be_value, u256_max, U256};
use vstd::prelude::*;

verus! {

/// The first block in which a commitment can be revealed.
pub open spec fn earliest_reveal(c: CommitmentView) -> nat {
    c.timestamp + COMMIT_REVEAL_DELAY as nat
}

/// The last block in which a commitment can be revealed.
pub open spec fn latest_reveal(c: CommitmentView) -> nat {
    c.timestamp + MAX_COMMITMENT_AGE as nat
}

/// Whether a commitment can be revealed with `computed_hash` in block `now`,
/// and if not, why.
pub open spec fn spec_reveal_check(c: CommitmentView, computed_hash: nat, now: nat) -> Result<
    (),
    OakError,
> {
    if !c.activated || c.hash == 0 {
        Err(OakError::CommitNotFound)
    } else if computed_hash != c.hash {
        Err(OakError::InvalidHash)
    } else if latest_reveal(c) > u256_max() {
        Err(OakError::BlockOverflow)
    } else if now > latest_reveal(c) {
        Err(OakError::CommitmentExpired)
    } else if now < earliest_reveal(c) {
        Err(OakError::TooEarly)
    } else {
        Ok(())
    }
}

/// Whether a commitment can be cancelled in block `now`, and if not, why.
///
/// It can once the reveal delay has passed, also while it could still be
/// revealed, and once it has expired.
pub open spec fn spec_cancel_check(c: CommitmentView, now: nat) -> Result<(), OakError> {
    if !c.activated {
        Err(OakError::CommitNotFound)
    } else if latest_reveal(c) > u256_max() {
        Err(OakError::BlockOverflow)
    } else if now <= latest_reveal(c) && now < earliest_reveal(c) {
        Err(OakError::TooEarly)
    } else {
        Ok(())
    }
}

impl Commitment {
    /// Checks a reveal against the commitment, given the hash of the
    /// revealed values.
    pub fn reveal_check_with_hash(&self, computed_hash: U256, now: U256) -> (r: OakResult<()>)
        ensures
            r == spec_reveal_check(self@, computed_hash@, now@),
    {
        if !self.activated {
            return Err(OakError::CommitNotFound);
        }
        if self.hash.is_zero() {
            return Err(OakError::CommitNotFound);
        }
        if !self.hash.equals(&computed_hash) {
            return Err(OakError::InvalidHash);
        }
        let max_block = match self.timestamp.checked_add(as_u256(MAX_COMMITMENT_AGE)) {
            Some(v) => v,
            None => {
                return Err(OakError::BlockOverflow);
            },
        };
        if now.gt(&max_block) {
            return Err(OakError::CommitmentExpired);
        }
        let min_block = match self.timestamp.checked_add(as_u256(COMMIT_REVEAL_DELAY)) {
            Some(v) => v,
            None => {
                return Err(OakError::BlockOverflow);
            },
        };
        if now.lt(&min_block) {
            return Err(OakError::TooEarly);
        }
        Ok(())
    }

    /// Checks the reveal of `(amount_in, salt)` in block `now` against the
    /// commitment.
    pub fn reveal_check(&self, amount_in: U256, salt: U256, now: U256) -> (r: OakResult<()>)
        ensures
            r == spec_reveal_check(self@, commit_hash_word(amount_in@, salt@), now@),
    {
        let computed_hash = U256::from_be_bytes(compute_commit_hash(amount_in, salt));
        self.reveal_check_with_hash(computed_hash, now)
    }

    /// Checks whether the commitment can be cancelled in block `now`.
    pub fn cancel_check(&self, now: U256) -> (r: OakResult<()>)
        ensures
            r == spec_cancel_check(self@, now@),
    {
        if !self.activated {
            return Err(OakError::CommitNotFound);
        }
        let max_block = match self.timestamp.checked_add(as_u256(MAX_COMMITMENT_AGE)) {
            Some(v) => v,
            None => {
                return Err(OakError::BlockOverflow);
            },
        };
        let min_block = match self.timestamp.checked_add(as_u256(COMMIT_REVEAL_DELAY)) {
            Some(v) => v,
            None => {
                return Err(OakError::BlockOverflow);
            },
        };
        if now.le(&max_block) && now.lt(&min_block) {
            return Err(OakError::TooEarly);
        }
        Ok(())
    }
}

/// A reveal passes the hash test exactly when the revealed values hash to
/// the stored hash: with any other hash a pending commitment answers
/// `InvalidHash`, and with the stored hash it is accepted throughout its
/// reveal window.
pub proof fn lemma_reveal_requires_the_committed_hash(
    c: CommitmentView,
    computed_hash: nat,
    now: nat,
)
    requires
        c.activated,
        c.hash != 0,
    ensures
        computed_hash != c.hash <==> spec_reveal_check(c, computed_hash, now) == Err::<
            (),
            OakError,
        >(OakError::InvalidHash),
        spec_reveal_check(c, computed_hash, now) is Ok ==> computed_hash == c.hash,
        earliest_reveal(c) <= now <= latest_reveal(c) <= u256_max() ==> (spec_reveal_check(
            c,
            computed_hash,
            now,
        ) is Ok <==> computed_hash == c.hash),
{
}

/// The reveal window is closed at both ends: a pending commitment made in
/// block `b` can be revealed in block `b + COMMIT_REVEAL_DELAY` and in block
/// `b + MAX_COMMITMENT_AGE`; one block before the first it is too early, one
/// block after the second it has expired.
pub proof fn lemma_reveal_window_boundaries(c: CommitmentView)
    requires
        c.activated,
        c.hash != 0,
        latest_reveal(c) <= u256_max(),
    ensures
        spec_reveal_check(c, c.hash, earliest_reveal(c)) is Ok,
        spec_reveal_check(c, c.hash, (earliest_reveal(c) - 1) as nat) == Err::<(), OakError>(
            OakError::TooEarly,
        ),
        spec_reveal_check(c, c.hash, latest_reveal(c)) is Ok,
        spec_reveal_check(c, c.hash, latest_reveal(c) + 1) == Err::<(), OakError>(
            OakError::CommitmentExpired,
        ),
{
}

/// An account without a commitment cannot reveal anything.
pub proof fn lemma_empty_commitment_is_not_found(computed_hash: nat, now: nat)
    ensures
        spec_reveal_check(Commitment::spec_empty(), computed_hash, now) == Err::<(), OakError>(
            OakError::CommitNotFound,
        ),
{
}

/// The state after `sender` commits to `hash` in block `now`, or the reason
/// the commitment is refused. An earlier commitment of the account is
/// overwritten.
pub open spec fn spec_commit_swap(pre: DexState, sender: Address, hash: nat, now: nat) -> Result<
    DexState,
    OakError,
> {
    if pre.paused {
        Err(OakError::Paused)
    } else if hash == 0 {
        Err(OakError::InvalidHash)
    } else {
        Ok(
            DexState {
                commitments: pre.commitments.insert(sender, Commitment::spec_committed(hash, now)),
                ..pre
            },
        )
    }
}

/// The state after `sender` cancels its commitment in block `now`, or the
/// reason it cannot.
pub open spec fn spec_cancel_commitment(pre: DexState, sender: Address, now: nat) -> Result<
    DexState,
    OakError,
> {
    match spec_cancel_check(pre.commitments[sender], now) {
        Err(e) => Err(e),
        Ok(_) => Ok(
            DexState { commitments: pre.commitments.insert(sender, Commitment::spec_empty()), ..pre },
        ),
    }
}

/// What was committed can be revealed: after a commitment to `hash` in block
/// `now`, a reveal with the same hash passes the registry's check in every
/// block of the window, and with another hash in none.
pub proof fn lemma_committed_hash_can_be_revealed(
    pre: DexState,
    sender: Address,
    hash: nat,
    now: nat,
    other_hash: nat,
    later: nat,
)
    requires
        spec_commit_swap(pre, sender, hash, now) is Ok,
        now + COMMIT_REVEAL_DELAY <= later <= now + MAX_COMMITMENT_AGE <= u256_max(),
    ensures
        ({
            let post = spec_commit_swap(pre, sender, hash, now)->Ok_0;
            &&& spec_reveal_check(post.commitments[sender], hash, later) is Ok
            &&& other_hash != hash ==> spec_reveal_check(post.commitments[sender], other_hash, later)
                == Err::<(), OakError>(OakError::InvalidHash)
        }),
{
}

impl OakDEX {
    /// Records the caller's commitment to `hash` in the current block, and
    /// gives the record of the commitment.
    ///
    /// `hash` is the 32-byte commitment hash; it is stored as the big-endian
    /// number it denotes. Whatever the caller had committed to before is
    /// overwritten.
    pub fn commit_swap(&mut self, ctx: CallContext, hash: [u8; 32]) -> (r: OakResult<Log>)
        ensures
            transition(
                old(self)@,
                final(self)@,
                r,
                spec_commit_swap(old(self)@, ctx.sender, be_value(hash@), ctx.block_number@),
            ),
            r matches Ok(log) ==> log@ == spec_commit_swap_log(
                ctx.sender,
                hash@,
                ctx.block_number@,
            ),
    {
        if self.paused {
            return Err(OakError::Paused);
        }
        let hash_word = U256::from_be_bytes(hash);
        if hash_word.is_zero() {
            return Err(OakError::InvalidHash);
        }
        self.commitments.set(ctx.sender, Commitment::committed(hash_word, ctx.block_number));
        Ok(emit_commit_swap(ctx.sender, hash, ctx.block_number))
    }

    /// Clears the caller's commitment, once the reveal delay has passed or
    /// the commitment has expired, and gives the record of the cancellation.
    pub fn cancel_commitment(&mut self, ctx: CallContext) -> (r: OakResult<Log>)
        ensures
            transition(
                old(self)@,
                final(self)@,
                r,
                spec_cancel_commitment(old(self)@, ctx.sender, ctx.block_number@),
            ),
            r matches Ok(log) ==> log@ == spec_cancel_commitment_log(
                ctx.sender,
                ctx.block_number@,
            ),
    {
        let commitment = self.commitments.get(ctx.sender);
        match commitment.cancel_check(ctx.block_number) {
            Err(e) => {
                return Err(e);
            },
            Ok(_) => {},
        }
        self.commitments.set(ctx.sender, Commitment::empty());
        Ok(emit_cancel_commitment(ctx.sender, ctx.block_number))
    }
}

} // verus!
