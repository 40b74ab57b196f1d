//! Unsigned numbers of a width that the runtime chooses: balances and nonces.

use crate::primitives::{low_128, U256};
use vstd::prelude::*;

verus! {

/// The smaller of two numbers.
pub open spec fn least(a: nat, b: nat) -> nat {
    if a <= b {
        a
    } else {
        b
    }
}

/// `a` less `b`, or zero where `b` is the larger.
pub open spec fn monus(a: nat, b: nat) -> nat {
    if a >= b {
        (a - b) as nat
    } else {
        0
    }
}

/// An unsigned number whose conversions and differences saturate at the bounds of its type.
pub trait Amount: Copy {
    /// The number.
    spec fn value(self) -> nat;

    /// The largest number of the type.
    spec fn max_value() -> nat;

    /// The amount of a number that the type holds.
    spec fn of(n: nat) -> Self;

    /// An amount and its number determine each other.
    proof fn representation(self)
        ensures
            self.value() <= Self::max_value(),
            Self::of(self.value()) == self,
    ;

    /// Every number up to the largest has an amount.
    proof fn representable(n: nat)
        requires
            n <= Self::max_value(),
        ensures
            Self::of(n).value() == n,
    ;

    /// The amount of `n`, or the largest amount where `n` does not fit.
    fn saturated_from(n: u128) -> (r: Self)
        ensures
            r.value() == least(n as nat, Self::max_value()),
    ;

    /// The number of the amount, or the largest `u128` where it does not fit.
    fn saturated_into(self) -> (r: u128)
        ensures
            r == least(self.value(), u128::MAX as nat),
    ;

    /// The difference of two amounts, or zero where the second is the larger.
    fn saturating_sub(self, other: Self) -> (r: Self)
        ensures
            r.value() == monus(self.value(), other.value()),
    ;

    /// Whether the amount is no less than another.
    fn at_least(self, other: Self) -> (r: bool)
        ensures
            r == (self.value() >= other.value()),
    ;

    /// Nothing.
    fn zero() -> (r: Self)
        ensures
            r.value() == 0,
    ;
}

/// The sum of the runtime's currency that a 256-bit number stands for: its lower 128 bits, or the
/// largest sum where they are too much.
pub open spec fn currency_sum<Balance: Amount>(number: U256) -> nat {
    least(low_128(number@), Balance::max_value())
}

/// The sum of the runtime's currency that a 256-bit number stands for.
pub fn to_currency<Balance: Amount>(number: U256) -> (r: Balance)
    ensures
        r == Balance::of(currency_sum::<Balance>(number)),
        r.value() == currency_sum::<Balance>(number),
{
    let r = Balance::saturated_from(number.low_u128());
    proof {
        r.representation();
    }
    r
}

impl Amount for u32 {
    open spec fn value(self) -> nat {
        self as nat
    }

    open spec fn max_value() -> nat {
        u32::MAX as nat
    }

    open spec fn of(n: nat) -> Self {
        n as u32
    }

    proof fn representation(self) {
    }

    proof fn representable(n: nat) {
    }

    fn saturated_from(n: u128) -> (r: Self) {
        if n > 0xffff_ffff {
            u32::MAX
        } else {
            n as u32
        }
    }

    fn saturated_into(self) -> (r: u128) {
        self as u128
    }

    fn saturating_sub(self, other: Self) -> (r: Self) {
        if self >= other {
            self - other
        } else {
            0
        }
    }

    fn at_least(self, other: Self) -> (r: bool) {
        self >= other
    }

    fn zero() -> (r: Self) {
        0
    }
}

impl Amount for u64 {
    open spec fn value(self) -> nat {
        self as nat
    }

    open spec fn max_value() -> nat {
        u64::MAX as nat
    }

    open spec fn of(n: nat) -> Self {
        n as u64
    }

    proof fn representation(self) {
    }

    proof fn representable(n: nat) {
    }

    fn saturated_from(n: u128) -> (r: Self) {
        if n > 0xffff_ffff_ffff_ffff {
            u64::MAX
        } else {
            n as u64
        }
    }

    fn saturated_into(self) -> (r: u128) {
        self as u128
    }

    fn saturating_sub(self, other: Self) -> (r: Self) {
        if self >= other {
            self - other
        } else {
            0
        }
    }

    fn at_least(self, other: Self) -> (r: bool) {
        self >= other
    }

    fn zero() -> (r: Self) {
        0
    }
}

impl Amount for u128 {
    open spec fn value(self) -> nat {
        self as nat
    }

    open spec fn max_value() -> nat {
        u128::MAX as nat
    }

    open spec fn of(n: nat) -> Self {
        n as u128
    }

    proof fn representation(self) {
    }

    proof fn representable(n: nat) {
    }

    fn saturated_from(n: u128) -> (r: Self) {
        n
    }

    fn saturated_into(self) -> (r: u128) {
        self
    }

    fn saturating_sub(self, other: Self) -> (r: Self) {
        if self >= other {
            self - other
        } else {
            0
        }
    }

    fn at_least(self, other: Self) -> (r: bool) {
        self >= other
    }

    fn zero() -> (r: Self) {
        0
    }
}

} // verus!
