//! Account and contract addresses.
//!
//! An [`Address`] is a 160-bit identifier, kept as three limbs, least
//! significant first. The all-zero address names nobody and is refused
//! wherever an account or a token contract is expected.

use crate::uint::{limb1_weight, limb2_weight, U256};
use vstd::prelude::*;

verus! {

/// A 160-bit address: `l0 + l1 * 2^64 + l2 * 2^128`.
#[derive(Clone, Copy, Debug, PartialEq, Eq, Structural)]
pub struct Address {
    pub l0: u64,
    pub l1: u64,
    pub l2: u32,
}

impl View for Address {
    type V = nat;

    /// The address read as a number.
    open spec fn view(&self) -> nat {
        self.l0 as nat + self.l1 as nat * limb1_weight() + self.l2 as nat * limb2_weight()
    }
}

impl Address {
    /// The zero address, as a specification value.
    pub open spec fn spec_zero() -> Address {
        Address { l0: 0, l1: 0, l2: 0 }
    }

    /// The zero address.
    pub fn zero() -> (r: Address)
        ensures
            r == Address::spec_zero(),
            r@ == 0,
    {
        Address { l0: 0, l1: 0, l2: 0 }
    }

    /// Builds an address from its limbs, least significant first.
    pub fn from_limbs(l0: u64, l1: u64, l2: u32) -> (r: Address)
        ensures
            r == (Address { l0, l1, l2 }),
    {
        Address { l0, l1, l2 }
    }

    /// Whether this is the zero address.
    pub fn is_zero(&self) -> (r: bool)
        ensures
            r == (*self == Address::spec_zero()),
            r == (self@ == 0),
    {
        proof {
            self.lemma_view_injective(Address::spec_zero());
        }
        self.l0 == 0 && self.l1 == 0 && self.l2 == 0
    }

    /// The address widened to a 256-bit word of the same value.
    pub fn into_word(self) -> (word: U256)
        ensures
            word == self.into_word_spec(),
            word@ == self@,
    {
        U256 { l0: self.l0, l1: self.l1, l2: self.l2 as u64, l3: 0 }
    }

    /// Two addresses that denote the same number are the same address.
    pub proof fn lemma_view_injective(self, other: Address)
        ensures
            (self@ == other@) == (self == other),
    {
        self.into_word_spec().lemma_view_injective(other.into_word_spec());
    }

    /// The address as a 256-bit word of the same value.
    pub open spec fn into_word_spec(self) -> U256 {
        U256 { l0: self.l0, l1: self.l1, l2: self.l2 as u64, l3: 0 }
    }
}

} // verus!
