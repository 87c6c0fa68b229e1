//! The scalar abstraction: the `Number` and `SignedNumber` traits and their
//! implementations for the machine integer types the library is instantiated
//! at.
//!
//! Every scalar is modelled by its mathematical value (`as_int`), and every
//! arithmetic operator a generic vector or matrix routine uses is tied to that
//! model by the `props` axioms, which each implementation proves.

use vstd::prelude::*;
use vstd::std_specs::cmp::PartialEqSpec;
use vstd::std_specs::cmp::PartialOrdSpec;
use vstd::std_specs::ops::AddSpec;
use vstd::std_specs::ops::DivSpec;
use vstd::std_specs::ops::MulSpec;
use vstd::std_specs::ops::NegSpec;
use vstd::std_specs::ops::SubSpec;
use core::cmp::Ordering;
use core::ops::Add;
use core::ops::Div;
use core::ops::Mul;
use core::ops::Neg;
use core::ops::Sub;

verus! {

/// Absolute value of a mathematical integer.
pub open spec fn abs_int(a: int) -> int {
    if a >= 0 {
        a
    } else {
        -a
    }
}

/// Division rounding toward zero, which is how the scalar types divide;
/// `int` division in specifications is Euclidean, so the two must be
/// related explicitly.
pub open spec fn trunc_div(a: int, b: int) -> int {
    if a >= 0 {
        a / b
    } else {
        -((-a) / b)
    }
}

/// Whether a mathematical value fits in the scalar type `T`.
pub open spec fn in_range<T: Number>(v: int) -> bool {
    T::min_val() <= v <= T::max_val()
}

/// Whether dividing `c` by `k` is defined and free of overflow in the
/// scalar type `T`: the divisor is non-zero, and the quotient of the
/// smallest value by minus one is excluded.
pub open spec fn div_ok<T: Number>(c: int, k: int) -> bool {
    k != 0 && !(c == T::min_val() && k == -1)
}

/// The ordering of two mathematical integers.
pub open spec fn order_of(a: int, b: int) -> Ordering {
    if a < b {
        Ordering::Less
    } else if a == b {
        Ordering::Equal
    } else {
        Ordering::Greater
    }
}

/// Truncating division stays within a machine-integer range `[lo, hi]`
/// (two's-complement, `lo + hi == -1`, or unsigned, `lo == 0`), except for
/// the excluded overflowing case `lo / -1`.
pub proof fn lemma_trunc_div_in_range(a: int, b: int, lo: int, hi: int)
    by (nonlinear_arith)
    requires
        lo <= a <= hi,
        lo <= b <= hi,
        b != 0,
        !(a == lo && b == -1),
        lo == 0 || lo + hi == -1,
        0 < hi,
    ensures
        lo <= trunc_div(a, b) <= hi,
{
}

/// A scalar type the library can be instantiated at: a machine integer with
/// the four arithmetic operators, equality and ordering, all of whose
/// behaviour is pinned to the mathematical value `as_int` by the `props`
/// axioms.
pub trait Number: Sized + Copy + Add<Output = Self> + Sub<Output = Self> + Mul<
    Output = Self,
> + Div<Output = Self> + PartialEq + PartialOrd + AddSpec<Output = Self> + SubSpec<
    Output = Self,
> + MulSpec<Output = Self> + DivSpec<Output = Self> + PartialEqSpec + PartialOrdSpec {
    /// The mathematical value of this scalar.
    spec fn as_int(self) -> int;

    /// Smallest mathematical value of the type.
    spec fn min_val() -> int;

    /// Largest mathematical value of the type.
    spec fn max_val() -> int;

    /// The facts every implementation proves about its operators: each
    /// operator may be used whenever the mathematical result is in range,
    /// and then computes exactly that result; equality and ordering agree
    /// with the mathematical value.
    proof fn props()
        ensures
            Self::min_val() <= 0,
            1 <= Self::max_val(),
            Self::obeys_add_spec(),
            Self::obeys_sub_spec(),
            Self::obeys_mul_spec(),
            Self::obeys_div_spec(),
            Self::obeys_eq_spec(),
            Self::obeys_partial_cmp_spec(),
            forall|a: Self| Self::min_val() <= #[trigger] a.as_int() <= Self::max_val(),
            forall|a: Self, b: Self| a.as_int() == b.as_int() ==> a == b,
            forall|a: Self, b: Self|
                Self::min_val() <= a.as_int() + b.as_int() <= Self::max_val()
                    ==> #[trigger] a.add_req(b),
            forall|a: Self, b: Self|
                Self::min_val() <= a.as_int() + b.as_int() <= Self::max_val() ==> (
                #[trigger] a.add_spec(b)).as_int() == a.as_int() + b.as_int(),
            forall|a: Self, b: Self|
                Self::min_val() <= a.as_int() - b.as_int() <= Self::max_val()
                    ==> #[trigger] a.sub_req(b),
            forall|a: Self, b: Self|
                Self::min_val() <= a.as_int() - b.as_int() <= Self::max_val() ==> (
                #[trigger] a.sub_spec(b)).as_int() == a.as_int() - b.as_int(),
            forall|a: Self, b: Self|
                Self::min_val() <= a.as_int() * b.as_int() <= Self::max_val()
                    ==> #[trigger] a.mul_req(b),
            forall|a: Self, b: Self|
                Self::min_val() <= a.as_int() * b.as_int() <= Self::max_val() ==> (
                #[trigger] a.mul_spec(b)).as_int() == a.as_int() * b.as_int(),
            forall|a: Self, b: Self|
                b.as_int() != 0 && !(a.as_int() == Self::min_val() && b.as_int() == -1)
                    ==> #[trigger] a.div_req(b),
            forall|a: Self, b: Self|
                b.as_int() != 0 && !(a.as_int() == Self::min_val() && b.as_int() == -1) ==> (
                #[trigger] a.div_spec(b)).as_int() == trunc_div(a.as_int(), b.as_int()),
            forall|a: Self, b: Self| #[trigger] a.eq_spec(&b) <==> a.as_int() == b.as_int(),
            forall|a: Self, b: Self| #[trigger] a.partial_cmp_spec(&b) == Some(
                order_of(a.as_int(), b.as_int()),
            ),
    ;

    /// The additive identity.
    fn zero() -> (r: Self)
        ensures
            r.as_int() == 0,
    ;

    /// The multiplicative identity.
    fn one() -> (r: Self)
        ensures
            r.as_int() == 1,
    ;

    /// The absolute value of this scalar.
    fn abs(self) -> (r: Self)
        requires
            abs_int(self.as_int()) <= Self::max_val(),
        ensures
            r.as_int() == abs_int(self.as_int()),
    ;
}

/// A `Number` that also supports unary negation; the unsigned scalar types
/// implement `Number` alone.
pub trait SignedNumber: Number + Neg<Output = Self> + NegSpec<Output = Self> {
    /// The facts every implementation proves about negation.
    proof fn neg_props()
        ensures
            Self::obeys_neg_spec(),
            forall|a: Self|
                Self::min_val() <= -a.as_int() <= Self::max_val() ==> #[trigger] a.neg_req(),
            forall|a: Self|
                Self::min_val() <= -a.as_int() <= Self::max_val() ==> (
                #[trigger] a.neg_spec()).as_int() == -a.as_int(),
    ;
}

impl Number for i32 {
    open spec fn as_int(self) -> int {
        self as int
    }

    open spec fn min_val() -> int {
        i32::MIN as int
    }

    open spec fn max_val() -> int {
        i32::MAX as int
    }

    proof fn props() {
        assert forall|a: i32, b: i32|
            b as int != 0 && !(a as int == i32::MIN as int && b as int == -1) implies (
        #[trigger] a.div_spec(b)).as_int() == trunc_div(a as int, b as int) by {
            lemma_trunc_div_in_range(a as int, b as int, i32::MIN as int, i32::MAX as int);
        }
    }

    fn zero() -> i32 {
        0
    }

    fn one() -> i32 {
        1
    }

    fn abs(self) -> i32 {
        if self < 0 {
            -self
        } else {
            self
        }
    }
}

impl SignedNumber for i32 {
    proof fn neg_props() {
    }
}

impl Number for i64 {
    open spec fn as_int(self) -> int {
        self as int
    }

    open spec fn min_val() -> int {
        i64::MIN as int
    }

    open spec fn max_val() -> int {
        i64::MAX as int
    }

    proof fn props() {
        assert forall|a: i64, b: i64|
            b as int != 0 && !(a as int == i64::MIN as int && b as int == -1) implies (
        #[trigger] a.div_spec(b)).as_int() == trunc_div(a as int, b as int) by {
            lemma_trunc_div_in_range(a as int, b as int, i64::MIN as int, i64::MAX as int);
        }
    }

    fn zero() -> i64 {
        0
    }

    fn one() -> i64 {
        1
    }

    fn abs(self) -> i64 {
        if self < 0 {
            -self
        } else {
            self
        }
    }
}

impl SignedNumber for i64 {
    proof fn neg_props() {
    }
}

impl Number for u32 {
    open spec fn as_int(self) -> int {
        self as int
    }

    open spec fn min_val() -> int {
        0
    }

    open spec fn max_val() -> int {
        u32::MAX as int
    }

    proof fn props() {
        assert forall|a: u32, b: u32| b as int != 0 && !(a as int == 0 && b as int == -1) implies (
        #[trigger] a.div_spec(b)).as_int() == trunc_div(a as int, b as int) by {
            lemma_trunc_div_in_range(a as int, b as int, 0, u32::MAX as int);
        }
    }

    fn zero() -> u32 {
        0
    }

    fn one() -> u32 {
        1
    }

    fn abs(self) -> u32 {
        self
    }
}

impl Number for u64 {
    open spec fn as_int(self) -> int {
        self as int
    }

    open spec fn min_val() -> int {
        0
    }

    open spec fn max_val() -> int {
        u64::MAX as int
    }

    proof fn props() {
        assert forall|a: u64, b: u64| b as int != 0 && !(a as int == 0 && b as int == -1) implies (
        #[trigger] a.div_spec(b)).as_int() == trunc_div(a as int, b as int) by {
            lemma_trunc_div_in_range(a as int, b as int, 0, u64::MAX as int);
        }
    }

    fn zero() -> u64 {
        0
    }

    fn one() -> u64 {
        1
    }

    fn abs(self) -> u64 {
        self
    }
}

} // verus!
