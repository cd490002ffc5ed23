//! The contract's state and its mathematical model.
//!
//! [`OakDEX`] is the whole ledger of one pool: reserves, fee policy, access
//! control, the reentrancy guard and the per-account commitments. Its view,
//! [`DexState`], holds the same data as natural numbers and a total map, and
//! is what the contracts of the operations speak of.

use crate::address::Address;
use crate::errors::OakError;
use crate::uint::U256;
use vstd::prelude::*;

verus! {

/// What the ledger tells the contract about the call that is running.
#[derive(Clone, Copy, Debug, PartialEq, Eq, Structural)]
pub struct CallContext {
    /// The account that made the call.
    pub sender: Address,
    /// The address of the contract itself.
    pub contract: Address,
    /// The number of the current block.
    pub block_number: U256,
}

/// An account's pending swap commitment.
#[derive(Clone, Copy, Debug, PartialEq, Eq, Structural)]
pub struct Commitment {
    /// Hash of the committed `(amount_in, salt)`, as a big-endian number.
    pub hash: U256,
    /// Number of the block in which the commitment was made.
    pub timestamp: U256,
    /// Whether the commitment is pending: made and neither revealed nor
    /// cancelled.
    pub activated: bool,
}

/// The model of a [`Commitment`].
pub struct CommitmentView {
    pub hash: nat,
    pub timestamp: nat,
    pub activated: bool,
}

impl View for Commitment {
    type V = CommitmentView;

    open spec fn view(&self) -> CommitmentView {
        CommitmentView { hash: self.hash@, timestamp: self.timestamp@, activated: self.activated }
    }
}

impl Commitment {
    /// The model of an account without a commitment.
    pub open spec fn spec_empty() -> CommitmentView {
        CommitmentView { hash: 0, timestamp: 0, activated: false }
    }

    /// The model of a commitment to `hash` made in block `block`.
    pub open spec fn spec_committed(hash: nat, block: nat) -> CommitmentView {
        CommitmentView { hash, timestamp: block, activated: true }
    }

    /// The state of an account without a commitment.
    pub fn empty() -> (r: Commitment)
        ensures
            r@ == Commitment::spec_empty(),
    {
        Commitment { hash: U256::zero(), timestamp: U256::zero(), activated: false }
    }

    /// A pending commitment to `hash`, made in block `block`.
    pub fn committed(hash: U256, block: U256) -> (r: Commitment)
        ensures
            r@ == Commitment::spec_committed(hash@, block@),
    {
        Commitment { hash, timestamp: block, activated: true }
    }
}

/// One account's entry in the registry.
#[derive(Clone, Copy, Debug, PartialEq, Eq)]
pub struct CommitmentEntry {
    pub account: Address,
    pub commitment: Commitment,
}

/// The commitment that `entries` record for `account` at or after index
/// `from`: that of the first entry for the account, or none.
pub open spec fn lookup_from(entries: Seq<CommitmentEntry>, account: Address, from: int)
    -> CommitmentView
    decreases entries.len() - from,
{
    if from < 0 || from >= entries.len() {
        Commitment::spec_empty()
    } else if entries[from].account == account {
        entries[from].commitment@
    } else {
        lookup_from(entries, account, from + 1)
    }
}

/// Replacing the entry at `at` leaves every other account's commitment as it
/// was.
proof fn lemma_update_keeps_others(
    entries: Seq<CommitmentEntry>,
    at: int,
    entry: CommitmentEntry,
    other: Address,
    from: int,
)
    requires
        0 <= at < entries.len(),
        0 <= from,
        entries[at].account == entry.account,
        other != entry.account,
    ensures
        lookup_from(entries.update(at, entry), other, from) == lookup_from(entries, other, from),
    decreases entries.len() - from,
{
    if from < entries.len() {
        lemma_update_keeps_others(entries, at, entry, other, from + 1);
    }
}

/// Replacing the first entry of an account changes its commitment.
proof fn lemma_update_sets_account(
    entries: Seq<CommitmentEntry>,
    at: int,
    entry: CommitmentEntry,
    from: int,
)
    requires
        0 <= from <= at < entries.len(),
        forall|j: int| from <= j < at ==> entries[j].account != entry.account,
    ensures
        lookup_from(entries.update(at, entry), entry.account, from) == entry.commitment@,
    decreases at - from,
{
    if from < at {
        lemma_update_sets_account(entries, at, entry, from + 1);
    }
}

/// Appending an entry leaves every other account's commitment as it was.
proof fn lemma_push_keeps_others(
    entries: Seq<CommitmentEntry>,
    entry: CommitmentEntry,
    other: Address,
    from: int,
)
    requires
        0 <= from,
        other != entry.account,
    ensures
        lookup_from(entries.push(entry), other, from) == lookup_from(entries, other, from),
    decreases entries.len() - from,
{
    let pushed = entries.push(entry);
    if from < entries.len() {
        lemma_push_keeps_others(entries, entry, other, from + 1);
    } else if from == entries.len() {
        assert(lookup_from(pushed, other, from + 1) == Commitment::spec_empty());
    }
}

/// Appending an entry for an account that has none sets its commitment.
proof fn lemma_push_sets_account(entries: Seq<CommitmentEntry>, entry: CommitmentEntry, from: int)
    requires
        0 <= from <= entries.len(),
        forall|j: int| from <= j < entries.len() ==> entries[j].account != entry.account,
    ensures
        lookup_from(entries.push(entry), entry.account, from) == entry.commitment@,
    decreases entries.len() - from,
{
    if from < entries.len() {
        lemma_push_sets_account(entries, entry, from + 1);
    }
}

/// The per-account commitments.
///
/// The model is a total map: an account that never committed has the empty
/// commitment.
#[derive(Debug)]
pub struct CommitmentRegistry {
    entries: Vec<CommitmentEntry>,
}

impl View for CommitmentRegistry {
    type V = Map<Address, CommitmentView>;

    closed spec fn view(&self) -> Map<Address, CommitmentView> {
        Map::total(|account: Address| lookup_from(self.entries@, account, 0))
    }
}

impl CommitmentRegistry {
    /// The model of a registry in which no account has a commitment.
    pub open spec fn spec_new() -> Map<Address, CommitmentView> {
        Map::total(|account: Address| Commitment::spec_empty())
    }

    /// The model has a commitment, possibly the empty one, for every account.
    pub proof fn lemma_total(&self)
        ensures
            forall|account: Address| self@.dom().contains(account),
    {
    }

    /// A registry in which no account has a commitment.
    pub fn new() -> (r: CommitmentRegistry)
        ensures
            r@ == CommitmentRegistry::spec_new(),
    {
        let r = CommitmentRegistry { entries: Vec::new() };
        r
    }

    /// The commitment of `account`.
    pub fn get(&self, account: Address) -> (r: Commitment)
        ensures
            r@ == self@[account],
    {
        let mut i: usize = 0;
        while i < self.entries.len()
            invariant
                i <= self.entries.len(),
                lookup_from(self.entries@, account, 0) == lookup_from(
                    self.entries@,
                    account,
                    i as int,
                ),
            decreases self.entries.len() - i,
        {
            if self.entries[i].account == account {
                return self.entries[i].commitment;
            }
            i += 1;
        }
        Commitment::empty()
    }

    /// Records `commitment` as the commitment of `account`.
    pub fn set(&mut self, account: Address, commitment: Commitment)
        ensures
            final(self)@ == old(self)@.insert(account, commitment@),
    {
        let entry = CommitmentEntry { account, commitment };
        let mut i: usize = 0;
        while i < self.entries.len()
            invariant
                i <= self.entries.len(),
                self.entries@ == old(self).entries@,
                entry == (CommitmentEntry { account, commitment }),
                forall|j: int| 0 <= j < i ==> self.entries@[j].account != account,
            decreases self.entries.len() - i,
        {
            if self.entries[i].account == account {
                self.entries.set(i, entry);
                proof {
                    let before = old(self).entries@;
                    lemma_update_sets_account(before, i as int, entry, 0);
                    assert forall|other: Address| other != account implies lookup_from(
                        self.entries@,
                        other,
                        0,
                    ) == lookup_from(before, other, 0) by {
                        lemma_update_keeps_others(before, i as int, entry, other, 0);
                    }
                }
                return ;
            }
            i += 1;
        }
        self.entries.push(entry);
        proof {
            let before = old(self).entries@;
            lemma_push_sets_account(before, entry, 0);
            assert forall|other: Address| other != account implies lookup_from(
                self.entries@,
                other,
                0,
            ) == lookup_from(before, other, 0) by {
                lemma_push_keeps_others(before, entry, other, 0);
            }
        }
    }
}

/// The state of the exchange.
#[derive(Debug)]
pub struct OakDEX {
    /// Reserve of token0 in the pool.
    pub reserves0: U256,
    /// Reserve of token1 in the pool.
    pub reserves1: U256,
    /// The floor under each reserve; zero until the first deposit.
    pub min_liquidity: U256,
    /// Total fee in basis points.
    pub protocol_fee_bps: U256,
    /// The account that may change the settings; zero until initialised.
    pub owner: Address,
    /// The account that receives the treasury's fees.
    pub treasury: Address,
    /// Fees owed to the treasury, in token0.
    pub accrued_treasury_fees_token0: U256,
    /// Fees owed to the liquidity providers, in token0.
    pub accrued_lp_fees_token0: U256,
    /// Total volume of token0 traded or lent.
    pub total_volume_token0: U256,
    /// Total volume of token1 traded or lent.
    pub total_volume_token1: U256,
    /// Whether trading is paused.
    pub paused: bool,
    /// The commitment of every account.
    pub commitments: CommitmentRegistry,
    /// The reentrancy guard: set while a guarded operation runs.
    pub locked: bool,
}

/// The model of the exchange's state.
pub struct DexState {
    pub reserves0: nat,
    pub reserves1: nat,
    pub min_liquidity: nat,
    pub protocol_fee_bps: nat,
    pub owner: Address,
    pub treasury: Address,
    pub accrued_treasury_fees_token0: nat,
    pub accrued_lp_fees_token0: nat,
    pub total_volume_token0: nat,
    pub total_volume_token1: nat,
    pub paused: bool,
    pub commitments: Map<Address, CommitmentView>,
    pub locked: bool,
}

impl View for OakDEX {
    type V = DexState;

    open spec fn view(&self) -> DexState {
        DexState {
            reserves0: self.reserves0@,
            reserves1: self.reserves1@,
            min_liquidity: self.min_liquidity@,
            protocol_fee_bps: self.protocol_fee_bps@,
            owner: self.owner,
            treasury: self.treasury,
            accrued_treasury_fees_token0: self.accrued_treasury_fees_token0@,
            accrued_lp_fees_token0: self.accrued_lp_fees_token0@,
            total_volume_token0: self.total_volume_token0@,
            total_volume_token1: self.total_volume_token1@,
            paused: self.paused,
            commitments: self.commitments@,
            locked: self.locked,
        }
    }
}

impl DexState {
    /// The state of a contract that was deployed and never called.
    pub open spec fn fresh() -> DexState {
        DexState {
            reserves0: 0,
            reserves1: 0,
            min_liquidity: 0,
            protocol_fee_bps: 0,
            owner: Address::spec_zero(),
            treasury: Address::spec_zero(),
            accrued_treasury_fees_token0: 0,
            accrued_lp_fees_token0: 0,
            total_volume_token0: 0,
            total_volume_token1: 0,
            paused: false,
            commitments: CommitmentRegistry::spec_new(),
            locked: false,
        }
    }
}

/// The state with the reentrancy guard taken, or the refusal to take it
/// twice.
pub open spec fn spec_lock(pre: DexState) -> Result<DexState, OakError> {
    if pre.locked {
        Err(OakError::ReentrantCall)
    } else {
        Ok(DexState { locked: true, ..pre })
    }
}

/// The state with the reentrancy guard released.
pub open spec fn spec_unlock(pre: DexState) -> DexState {
    DexState { locked: false, ..pre }
}

/// How an operation on the state ends: in the state that `model` gives, or
/// with the error that `model` gives and the state as it was.
pub open spec fn transition<T>(
    pre: DexState,
    post: DexState,
    r: Result<T, OakError>,
    model: Result<DexState, OakError>,
) -> bool {
    match r {
        Ok(_) => model == Ok::<DexState, OakError>(post),
        Err(e) => model == Err::<DexState, OakError>(e) && post == pre,
    }
}

/// How a later step of a guarded operation ends: in the state that `model`
/// gives, or with the error that `model` gives and nothing changed but the
/// guard, which is released.
pub open spec fn guarded_step<T>(
    pre: DexState,
    post: DexState,
    r: Result<T, OakError>,
    model: Result<DexState, OakError>,
) -> bool {
    match r {
        Ok(_) => model == Ok::<DexState, OakError>(post),
        Err(e) => model == Err::<DexState, OakError>(e) && post == spec_unlock(pre),
    }
}

impl OakDEX {
    /// The state of a contract that was deployed and never called: every
    /// number zero, every flag clear, no owner and no commitment.
    pub fn new() -> (dex: OakDEX)
        ensures
            dex@ == DexState::fresh(),
    {
        OakDEX {
            reserves0: U256::zero(),
            reserves1: U256::zero(),
            min_liquidity: U256::zero(),
            protocol_fee_bps: U256::zero(),
            owner: Address::zero(),
            treasury: Address::zero(),
            accrued_treasury_fees_token0: U256::zero(),
            accrued_lp_fees_token0: U256::zero(),
            total_volume_token0: U256::zero(),
            total_volume_token1: U256::zero(),
            paused: false,
            commitments: CommitmentRegistry::new(),
            locked: false,
        }
    }
}

} // verus!
