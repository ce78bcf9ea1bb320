//! 256-bit unsigned integers, held as four little-endian 64-bit words.
//!
//! Token identifiers, token counts and the collection's supply are 256-bit
//! values. Arithmetic and ordering on them go through `casper_types::U256`.
use vstd::prelude::*;

verus! {

/// A 256-bit unsigned integer: `w0` is the least significant word.
#[derive(Clone, Copy, PartialEq, Eq, Structural, Debug)]
pub struct U256 {
    pub w0: u64,
    pub w1: u64,
    pub w2: u64,
    pub w3: u64,
}

/// The number of values one 64-bit word holds.
pub open spec fn word_base() -> nat {
    0x1_0000_0000_0000_0000nat
}

/// The largest value a `U256` holds, 2^256 - 1.
pub open spec fn u256_max() -> nat {
    (word_base() * word_base() * word_base() * word_base() - 1) as nat
}

/// The number a `U256` stands for.
pub open spec fn u256_value(w0: u64, w1: u64, w2: u64, w3: u64) -> nat {
    (w0 + word_base() * (w1 + word_base() * (w2 + word_base() * w3 as nat))) as nat
}

impl View for U256 {
    type V = nat;

    open spec fn view(&self) -> nat {
        u256_value(self.w0, self.w1, self.w2, self.w3)
    }
}

/// Every `U256` lies in `0 ..= u256_max()`.
pub proof fn lemma_u256_bounded(x: U256)
    ensures
        x@ <= u256_max(),
{
    let b = word_base() as int;
    let (w0, w1, w2, w3) = (x.w0 as int, x.w1 as int, x.w2 as int, x.w3 as int);
    assert(w2 + b * w3 <= b * b - 1) by (nonlinear_arith)
        requires 0 <= w2 < b, 0 <= w3 < b, b == 0x1_0000_0000_0000_0000int;
    assert(w1 + b * (w2 + b * w3) <= b * b * b - 1) by (nonlinear_arith)
        requires 0 <= w1 < b, 0 <= w2 + b * w3 <= b * b - 1, b == 0x1_0000_0000_0000_0000int;
    assert(w0 + b * (w1 + b * (w2 + b * w3)) <= b * b * b * b - 1) by (nonlinear_arith)
        requires 0 <= w0 < b, 0 <= w1 + b * (w2 + b * w3) <= b * b * b - 1, b == 0x1_0000_0000_0000_0000int;
}

/// Splitting a number into its lowest word and the rest is unique.
proof fn lemma_split_word(lo1: u64, hi1: int, lo2: u64, hi2: int)
    requires
        lo1 + word_base() * hi1 == lo2 + word_base() * hi2,
    ensures
        lo1 == lo2,
        hi1 == hi2,
{
    let b = word_base() as int;
    let x = lo1 + b * hi1;
    assert(hi1 * b + lo1 == x) by (nonlinear_arith)
        requires x == lo1 + b * hi1;
    assert(hi2 * b + lo2 == x) by (nonlinear_arith)
        requires x == lo2 + b * hi2;
    vstd::arithmetic::div_mod::lemma_fundamental_div_mod_converse(x, b, hi1, lo1 as int);
    vstd::arithmetic::div_mod::lemma_fundamental_div_mod_converse(x, b, hi2, lo2 as int);
}

/// Different words stand for different numbers.
pub proof fn lemma_u256_injective(x: U256, y: U256)
    requires
        x@ == y@,
    ensures
        x == y,
{
    let b = word_base() as int;
    lemma_split_word(x.w0, x.w1 + b * (x.w2 + b * x.w3), y.w0, y.w1 + b * (y.w2 + b * y.w3));
    lemma_split_word(x.w1, x.w2 + b * x.w3, y.w1, y.w2 + b * y.w3);
    lemma_split_word(x.w2, x.w3 as int, y.w2, y.w3 as int);
}

impl U256 {
    /// The value zero.
    pub fn zero() -> (r: U256)
        ensures
            r@ == 0,
            r == (U256 { w0: 0, w1: 0, w2: 0, w3: 0 }),
    {
        U256 { w0: 0, w1: 0, w2: 0, w3: 0 }
    }

    /// The value one.
    pub fn one() -> (r: U256)
        ensures
            r@ == 1,
    {
        U256 { w0: 1, w1: 0, w2: 0, w3: 0 }
    }

    /// A value that fits in one word.
    pub fn from_u64(v: u64) -> (r: U256)
        ensures
            r@ == v,
    {
        U256 { w0: v, w1: 0, w2: 0, w3: 0 }
    }
}

/// `a < b` on the numbers, computed by `casper_types::U256`'s ordering.
///
/// Trusted: `casper_types::U256` (the `uint` crate's `construct_uint!`) keeps
/// its words little-endian, and its `Ord` compares the numbers they stand for.
#[verifier::external_body]
pub fn u256_lt(a: &U256, b: &U256) -> (r: bool)
    ensures
        r == (a@ < b@),
{
    casper_types::U256([a.w0, a.w1, a.w2, a.w3]) < casper_types::U256([b.w0, b.w1, b.w2, b.w3])
}

/// `a + b`, computed by `casper_types::U256`'s `Add`, which panics on overflow;
/// `requires` leaves the overflowing inputs out.
///
/// Trusted: the sum's words stand for the sum of the numbers.
#[verifier::external_body]
pub fn u256_add(a: &U256, b: &U256) -> (r: U256)
    requires
        a@ + b@ <= u256_max(),
    ensures
        r@ == a@ + b@,
{
    let s = casper_types::U256([a.w0, a.w1, a.w2, a.w3]) + casper_types::U256([b.w0, b.w1, b.w2, b.w3]);
    U256 { w0: s.0[0], w1: s.0[1], w2: s.0[2], w3: s.0[3] }
}

/// `a - b`, computed by `casper_types::U256`'s `Sub`, which panics on
/// underflow; `requires` leaves those inputs out.
///
/// Trusted: the difference's words stand for the difference of the numbers.
#[verifier::external_body]
pub fn u256_sub(a: &U256, b: &U256) -> (r: U256)
    requires
        b@ <= a@,
    ensures
        r@ == a@ - b@,
{
    let s = casper_types::U256([a.w0, a.w1, a.w2, a.w3]) - casper_types::U256([b.w0, b.w1, b.w2, b.w3]);
    U256 { w0: s.0[0], w1: s.0[1], w2: s.0[2], w3: s.0[3] }
}

} // verus!
