//! Unsigned 256-bit integers.
//!
//! A [`U256`] is four 64-bit limbs, least significant first, and stands for
//! the natural number `l0 + l1 * 2^64 + l2 * 2^128 + l3 * 2^192`. Every
//! combination of limbs is a valid value, so the type has no invariant.
//!
//! Comparisons and the conversions from machine integers are computed on the
//! limbs and proved here. Checked arithmetic and the big-endian byte
//! conversions are delegated to `alloy_primitives::U256`; their contracts are
//! trusted and say so in their documentation.

use vstd::arithmetic::div_mod::lemma_breakdown;
use vstd::arithmetic::power::{lemma_pow0, lemma_pow1, lemma_pow_adds, lemma_pow_positive, pow};
use vstd::prelude::*;

verus! {

/// `2^64`, the weight of the second limb.
pub open spec fn limb1_weight() -> nat {
    0x1_0000_0000_0000_0000nat
}

/// `2^128`, the weight of the third limb.
pub open spec fn limb2_weight() -> nat {
    0x1_0000_0000_0000_0000_0000_0000_0000_0000nat
}

/// `2^192`, the weight of the fourth limb.
pub open spec fn limb3_weight() -> nat {
    0x1_0000_0000_0000_0000_0000_0000_0000_0000_0000_0000_0000_0000nat
}

/// `2^256 - 1`, the largest value a [`U256`] can hold.
pub open spec fn u256_max() -> nat {
    0xffff_ffff_ffff_ffff_ffff_ffff_ffff_ffff_ffff_ffff_ffff_ffff_ffff_ffff_ffff_ffffnat
}

/// The big-endian encoding of `value mod 256^len` in exactly `len` bytes.
pub open spec fn be_bytes(value: nat, len: nat) -> Seq<u8>
    decreases len,
{
    if len == 0 {
        Seq::empty()
    } else {
        be_bytes(value / 256, (len - 1) as nat).push((value % 256) as u8)
    }
}

/// The number that a sequence of bytes denotes when read big-endian.
pub open spec fn be_value(bytes: Seq<u8>) -> nat
    decreases bytes.len(),
{
    if bytes.len() == 0 {
        0
    } else {
        be_value(bytes.drop_last()) * 256 + bytes.last() as nat
    }
}

/// The 32-byte big-endian word of a 256-bit value.
pub open spec fn be_word(value: nat) -> Seq<u8> {
    be_bytes(value, 32)
}

/// An encoding has the length that was asked for.
pub proof fn lemma_be_bytes_len(value: nat, len: nat)
    ensures
        be_bytes(value, len).len() == len,
    decreases len,
{
    if len > 0 {
        lemma_be_bytes_len(value / 256, (len - 1) as nat);
    }
}

/// Reading an encoding gives back the value, reduced to the encoding's
/// length.
pub proof fn lemma_be_value_of_be_bytes(value: nat, len: nat)
    ensures
        be_value(be_bytes(value, len)) == value % (pow(256, len) as nat),
    decreases len,
{
    if len == 0 {
        lemma_pow0(256);
    } else {
        let shorter = (len - 1) as nat;
        let rest = be_bytes(value / 256, shorter);
        let full = rest.push((value % 256) as u8);
        lemma_be_value_of_be_bytes(value / 256, shorter);
        assert(full.drop_last() =~= rest);
        lemma_pow_positive(256, shorter);
        lemma_pow1(256);
        lemma_pow_adds(256, 1, shorter);
        lemma_breakdown(value as int, 256, pow(256, shorter));
        assert(be_value(rest) * 256 == 256 * ((value as int / 256) % pow(256, shorter)))
            by (nonlinear_arith)
            requires
                be_value(rest) == (value / 256) % (pow(256, shorter) as nat),
                pow(256, shorter) > 0,
        ;
    }
}

/// Encoding what a byte string denotes, in as many bytes, gives the string
/// back.
pub proof fn lemma_be_bytes_of_be_value(bytes: Seq<u8>)
    ensures
        be_bytes(be_value(bytes), bytes.len()) == bytes,
    decreases bytes.len(),
{
    if bytes.len() > 0 {
        lemma_be_bytes_of_be_value(bytes.drop_last());
    }
}

/// `256^32` is `2^256`.
pub proof fn lemma_word_modulus()
    ensures
        pow(256, 32) == u256_max() + 1,
{
    lemma_pow1(256);
    lemma_pow_adds(256, 1, 1);
    assert(pow(256, 2) == 0x1_0000);
    lemma_pow_adds(256, 2, 2);
    assert(pow(256, 4) == 0x1_0000_0000);
    lemma_pow_adds(256, 4, 4);
    assert(pow(256, 8) == 0x1_0000_0000_0000_0000);
    lemma_pow_adds(256, 8, 8);
    assert(pow(256, 16) == 0x1_0000_0000_0000_0000_0000_0000_0000_0000);
    lemma_pow_adds(256, 16, 16);
}

/// The 32-byte word of a 256-bit value is 32 bytes long and denotes the
/// value.
pub proof fn lemma_be_word_round_trip(value: nat)
    requires
        value <= u256_max(),
    ensures
        be_word(value).len() == 32,
        be_value(be_word(value)) == value,
{
    lemma_be_bytes_len(value, 32);
    lemma_be_value_of_be_bytes(value, 32);
    lemma_word_modulus();
    let modulus = pow(256, 32) as nat;
    assert(value % modulus == value) by (nonlinear_arith)
        requires
            value < modulus,
    ;
}

/// An unsigned 256-bit integer, as four 64-bit limbs, least significant first.
#[derive(Clone, Copy, Debug, PartialEq, Eq, Structural)]
pub struct U256 {
    pub l0: u64,
    pub l1: u64,
    pub l2: u64,
    pub l3: u64,
}

impl View for U256 {
    type V = nat;

    /// The natural number that the limbs denote.
    open spec fn view(&self) -> nat {
        self.l0 as nat + self.l1 as nat * limb1_weight() + self.l2 as nat * limb2_weight()
            + self.l3 as nat * limb3_weight()
    }
}

impl U256 {
    /// The value zero.
    pub fn zero() -> (r: U256)
        ensures
            r@ == 0,
    {
        U256 { l0: 0, l1: 0, l2: 0, l3: 0 }
    }

    /// The value of a 64-bit integer.
    pub fn from_u64(value: u64) -> (r: U256)
        ensures
            r@ == value,
    {
        U256 { l0: value, l1: 0, l2: 0, l3: 0 }
    }

    /// Builds a value from its limbs, least significant first.
    pub fn from_limbs(limbs: [u64; 4]) -> (r: U256)
        ensures
            r == (U256 { l0: limbs[0], l1: limbs[1], l2: limbs[2], l3: limbs[3] }),
    {
        U256 { l0: limbs[0], l1: limbs[1], l2: limbs[2], l3: limbs[3] }
    }

    /// The limbs of the value, least significant first.
    pub fn into_limbs(self) -> (limbs: [u64; 4])
        ensures
            limbs@ == seq![self.l0, self.l1, self.l2, self.l3],
    {
        let limbs: [u64; 4] = [self.l0, self.l1, self.l2, self.l3];
        limbs
    }

    /// Whether the value is zero.
    pub fn is_zero(&self) -> (r: bool)
        ensures
            r == (self@ == 0),
    {
        proof {
            self.lemma_view_injective(U256 { l0: 0, l1: 0, l2: 0, l3: 0 });
        }
        self.l0 == 0 && self.l1 == 0 && self.l2 == 0 && self.l3 == 0
    }

    /// The value below each limb is smaller than that limb's weight.
    pub proof fn lemma_partial_sums(self)
        ensures
            self.l0 as nat + self.l1 as nat * limb1_weight() < limb2_weight(),
            self.l0 as nat + self.l1 as nat * limb1_weight() + self.l2 as nat * limb2_weight()
                < limb3_weight(),
            self@ <= u256_max(),
    {
    }

    /// Values are ordered as their limbs are, read from the most significant.
    pub proof fn lemma_limb_order(self, rhs: U256)
        ensures
            self.l3 < rhs.l3 ==> self@ < rhs@,
            self.l3 == rhs.l3 && self.l2 < rhs.l2 ==> self@ < rhs@,
            self.l3 == rhs.l3 && self.l2 == rhs.l2 && self.l1 < rhs.l1 ==> self@ < rhs@,
            self.l3 == rhs.l3 && self.l2 == rhs.l2 && self.l1 == rhs.l1 && self.l0 < rhs.l0
                ==> self@ < rhs@,
    {
        self.lemma_partial_sums();
        rhs.lemma_partial_sums();
        if self.l3 < rhs.l3 {
            assert((self.l3 + 1) * limb3_weight() <= rhs.l3 * limb3_weight());
        }
        if self.l2 < rhs.l2 {
            assert((self.l2 + 1) * limb2_weight() <= rhs.l2 * limb2_weight());
        }
        if self.l1 < rhs.l1 {
            assert((self.l1 + 1) * limb1_weight() <= rhs.l1 * limb1_weight());
        }
    }

    /// Whether `self` is strictly less than `rhs`.
    pub fn lt(&self, rhs: &U256) -> (r: bool)
        ensures
            r == (self@ < rhs@),
    {
        proof {
            self.lemma_limb_order(*rhs);
            rhs.lemma_limb_order(*self);
        }
        if self.l3 != rhs.l3 {
            self.l3 < rhs.l3
        } else if self.l2 != rhs.l2 {
            self.l2 < rhs.l2
        } else if self.l1 != rhs.l1 {
            self.l1 < rhs.l1
        } else {
            self.l0 < rhs.l0
        }
    }

    /// Whether `self` is strictly greater than `rhs`.
    pub fn gt(&self, rhs: &U256) -> (r: bool)
        ensures
            r == (self@ > rhs@),
    {
        rhs.lt(self)
    }

    /// Whether `self` is at most `rhs`.
    pub fn le(&self, rhs: &U256) -> (r: bool)
        ensures
            r == (self@ <= rhs@),
    {
        !rhs.lt(self)
    }

    /// Whether the two values are the same number.
    pub fn equals(&self, rhs: &U256) -> (r: bool)
        ensures
            r == (self@ == rhs@),
            r == (*self == *rhs),
    {
        proof {
            self.lemma_view_injective(*rhs);
        }
        self.l0 == rhs.l0 && self.l1 == rhs.l1 && self.l2 == rhs.l2 && self.l3 == rhs.l3
    }

    /// Every value fits in 256 bits.
    pub proof fn lemma_bounded(self)
        ensures
            self@ <= u256_max(),
    {
    }

    /// Two values that denote the same number have the same limbs.
    pub proof fn lemma_view_injective(self, other: U256)
        ensures
            (self@ == other@) == (self == other),
    {
        self.lemma_limb_order(other);
        other.lemma_limb_order(self);
    }

    /// `self + rhs`, or `None` where the sum does not fit in 256 bits.
    ///
    /// Trusted: the body calls `Uint::checked_add` of `ruint`, the `U256` of
    /// `alloy_primitives`, which is documented to compute `self + rhs` and to
    /// return `None` if overflow occurred. The contract claims exactly that.
    /// The limbs go in through `Uint::from_limbs`, which at 256 bits takes
    /// every value, and come out through `Uint::into_limbs`.
    #[verifier::external_body]
    pub(crate) fn checked_add(self, rhs: U256) -> (r: Option<U256>)
        ensures
            match r {
                Some(sum) => sum@ == self@ + rhs@,
                None => self@ + rhs@ > u256_max(),
            },
    {
        let a = stylus_sdk::alloy_primitives::U256::from_limbs([self.l0, self.l1, self.l2, self.l3]);
        let b = stylus_sdk::alloy_primitives::U256::from_limbs([rhs.l0, rhs.l1, rhs.l2, rhs.l3]);
        match a.checked_add(b) {
            Some(v) => {
                let l = v.into_limbs();
                Some(U256 { l0: l[0], l1: l[1], l2: l[2], l3: l[3] })
            },
            None => None,
        }
    }

    /// `self - rhs`, or `None` where `rhs` is the larger.
    ///
    /// Trusted: the body calls `Uint::checked_sub` of `ruint`, which is
    /// documented to compute `self - rhs` and to return `None` if overflow
    /// occurred, that is, if the difference is negative. The contract
    /// claims exactly that.
    #[verifier::external_body]
    pub(crate) fn checked_sub(self, rhs: U256) -> (r: Option<U256>)
        ensures
            match r {
                Some(difference) => difference@ == self@ - rhs@,
                None => self@ < rhs@,
            },
    {
        let a = stylus_sdk::alloy_primitives::U256::from_limbs([self.l0, self.l1, self.l2, self.l3]);
        let b = stylus_sdk::alloy_primitives::U256::from_limbs([rhs.l0, rhs.l1, rhs.l2, rhs.l3]);
        match a.checked_sub(b) {
            Some(v) => {
                let l = v.into_limbs();
                Some(U256 { l0: l[0], l1: l[1], l2: l[2], l3: l[3] })
            },
            None => None,
        }
    }

    /// `self * rhs`, or `None` where the product does not fit in 256 bits.
    ///
    /// Trusted: the body calls `Uint::checked_mul` of `ruint`, which is
    /// documented to compute `self * rhs` and to return `None` if overflow
    /// occurred. The contract claims exactly that.
    #[verifier::external_body]
    pub(crate) fn checked_mul(self, rhs: U256) -> (r: Option<U256>)
        ensures
            match r {
                Some(product) => product@ == self@ * rhs@,
                None => self@ * rhs@ > u256_max(),
            },
    {
        let a = stylus_sdk::alloy_primitives::U256::from_limbs([self.l0, self.l1, self.l2, self.l3]);
        let b = stylus_sdk::alloy_primitives::U256::from_limbs([rhs.l0, rhs.l1, rhs.l2, rhs.l3]);
        match a.checked_mul(b) {
            Some(v) => {
                let l = v.into_limbs();
                Some(U256 { l0: l[0], l1: l[1], l2: l[2], l3: l[3] })
            },
            None => None,
        }
    }

    /// The quotient of `self` by `rhs`, rounded down, or `None` where `rhs`
    /// is zero.
    ///
    /// Trusted: the body calls `Uint::checked_div` of `ruint`, which is
    /// documented to compute `self / rhs` and to return `None` if
    /// `rhs == 0`. The contract claims exactly that, the quotient being the
    /// integer one.
    #[verifier::external_body]
    pub(crate) fn checked_div(self, rhs: U256) -> (r: Option<U256>)
        ensures
            match r {
                Some(quotient) => rhs@ != 0 && quotient@ == self@ / rhs@,
                None => rhs@ == 0,
            },
    {
        let a = stylus_sdk::alloy_primitives::U256::from_limbs([self.l0, self.l1, self.l2, self.l3]);
        let b = stylus_sdk::alloy_primitives::U256::from_limbs([rhs.l0, rhs.l1, rhs.l2, rhs.l3]);
        match a.checked_div(b) {
            Some(v) => {
                let l = v.into_limbs();
                Some(U256 { l0: l[0], l1: l[1], l2: l[2], l3: l[3] })
            },
            None => None,
        }
    }

    /// The value as 32 bytes, most significant first.
    ///
    /// Trusted: the body calls `Uint::to_be_bytes::<32>` of `ruint`, which
    /// is documented to convert the integer to a big-endian byte array of
    /// exactly its byte size, and to panic only for another size than that.
    /// The contract claims that these are the 32 big-endian bytes of the
    /// value.
    #[verifier::external_body]
    pub(crate) fn to_be_bytes(self) -> (bytes: [u8; 32])
        ensures
            bytes@ == be_word(self@),
    {
        let a = stylus_sdk::alloy_primitives::U256::from_limbs([self.l0, self.l1, self.l2, self.l3]);
        a.to_be_bytes::<32>()
    }

    /// The value that 32 bytes denote, most significant first.
    ///
    /// Trusted: the body calls `Uint::from_be_bytes::<32>` of `ruint`, which
    /// is documented to convert a big-endian byte array of exactly the
    /// integer's byte size to the integer, and to panic only for another
    /// size or a value that does not fit; 32 bytes always fit 256 bits. The
    /// contract claims that the result is the number the bytes denote.
    #[verifier::external_body]
    pub(crate) fn from_be_bytes(bytes: [u8; 32]) -> (r: U256)
        ensures
            r@ == be_value(bytes@),
    {
        let l = stylus_sdk::alloy_primitives::U256::from_be_bytes::<32>(bytes).into_limbs();
        U256 { l0: l[0], l1: l[1], l2: l[2], l3: l[3] }
    }
}

} // verus!
