use core::ops::{Add, Div, Mul, Neg, Sub};
use vstd::prelude::*;
use vstd::std_specs::cmp::{PartialEqSpec, PartialOrdIs, PartialOrdSpec};
use vstd::std_specs::ops::{AddSpec, DivSpec, MulSpec, NegSpec, SubSpec};

verus! {

/// The numeric capability set a controller is built over: a copyable,
/// partially ordered number with the four arithmetic operators, negation,
/// signed infinities, zero and the two small constants the gain formulas use.
///
/// The operators are those of `core::ops`; in contracts they are written with
/// the matching `*_spec` functions. An implementation promises that its
/// operators are total, pure functions of their operands, and that the laws
/// below hold. Nothing in this crate implements the trait: everything proved
/// about a controller is proved for every implementation that keeps the
/// promise.
///
/// IEEE-754 binary floating point keeps it, with `eq_spec` read as numeric
/// equality (so that both signed zeros are zero) and `is_finite_spec`
/// excluding NaN and the infinities. For a `num_traits::float::FloatCore`
/// number the constants are its `zero()`, `infinity()` and `neg_infinity()`
/// and the casts of `2.0` and `0.5`.
pub trait Scalar: Copy + PartialOrd + Add<Output = Self> + Sub<Output = Self> + Mul<
    Output = Self,
> + Div<Output = Self> + Neg<Output = Self> {
    /// The additive identity.
    spec fn zero_spec() -> Self;

    /// The constant two.
    spec fn two_spec() -> Self;

    /// The constant one half.
    spec fn half_spec() -> Self;

    /// Positive infinity.
    spec fn infinity_spec() -> Self;

    /// Negative infinity.
    spec fn neg_infinity_spec() -> Self;

    /// Whether a value is an ordinary number: neither infinite nor NaN.
    spec fn is_finite_spec(self) -> bool;

    /// Returns zero.
    fn zero() -> (r: Self)
        ensures
            r == Self::zero_spec(),
    ;

    /// Returns two.
    fn two() -> (r: Self)
        ensures
            r == Self::two_spec(),
    ;

    /// Returns one half.
    fn half() -> (r: Self)
        ensures
            r == Self::half_spec(),
    ;

    /// Returns positive infinity.
    fn infinity() -> (r: Self)
        ensures
            r == Self::infinity_spec(),
    ;

    /// Returns negative infinity.
    fn neg_infinity() -> (r: Self)
        ensures
            r == Self::neg_infinity_spec(),
    ;

    /// Every operator is defined on all operands and computes its `*_spec`
    /// function; comparison computes `partial_cmp_spec`.
    proof fn lemma_operators_are_total()
        ensures
            Self::obeys_add_spec(),
            Self::obeys_sub_spec(),
            Self::obeys_mul_spec(),
            Self::obeys_div_spec(),
            Self::obeys_neg_spec(),
            Self::obeys_partial_cmp_spec(),
            forall|a: Self, b: Self| #[trigger] a.add_req(b),
            forall|a: Self, b: Self| #[trigger] a.sub_req(b),
            forall|a: Self, b: Self| #[trigger] a.mul_req(b),
            forall|a: Self, b: Self| #[trigger] a.div_req(b),
            forall|a: Self| #[trigger] a.neg_req(),
    ;

    /// `a < b` exactly when `b > a`, and `a <= b` exactly when `b >= a`.
    proof fn lemma_order_is_dual(a: Self, b: Self)
        ensures
            a.is_lt(&b) <==> b.is_gt(&a),
            a.is_le(&b) <==> b.is_ge(&a),
    ;

    /// What is below a value is below everything that value does not exceed.
    proof fn lemma_order_is_transitive(a: Self, b: Self, c: Self)
        requires
            a.is_lt(&b),
            b.is_le(&c),
        ensures
            a.is_lt(&c),
    ;

    /// The infinities are ordered, and no value lies beyond them.
    proof fn lemma_infinities_enclose(a: Self)
        ensures
            Self::neg_infinity_spec().is_le(&Self::infinity_spec()),
            !a.is_lt(&Self::neg_infinity_spec()),
            !a.is_gt(&Self::infinity_spec()),
    ;

    /// Zero is finite, and equal to itself.
    proof fn lemma_zero()
        ensures
            Self::zero_spec().is_finite_spec(),
            Self::zero_spec().eq_spec(&Self::zero_spec()),
    ;

    /// Two and one half are what they are called: their product leaves a
    /// finite value unchanged under multiplication, and one half plus one half
    /// equals it.
    proof fn lemma_two_times_half(a: Self)
        requires
            a.is_finite_spec(),
        ensures
            a.mul_spec(Self::two_spec().mul_spec(Self::half_spec())).eq_spec(&a),
            Self::half_spec().add_spec(Self::half_spec()).eq_spec(
                &Self::two_spec().mul_spec(Self::half_spec()),
            ),
    ;

    /// A finite value minus itself is zero.
    proof fn lemma_sub_self(a: Self)
        requires
            a.is_finite_spec(),
        ensures
            a.sub_spec(a).eq_spec(&Self::zero_spec()),
    ;

    /// A finite value times zero is zero.
    proof fn lemma_mul_zero(a: Self, z: Self)
        requires
            a.is_finite_spec(),
            z.eq_spec(&Self::zero_spec()),
        ensures
            a.mul_spec(z).eq_spec(&Self::zero_spec()),
    ;

    /// Zero plus zero is zero.
    proof fn lemma_add_zeros(y: Self, z: Self)
        requires
            y.eq_spec(&Self::zero_spec()),
            z.eq_spec(&Self::zero_spec()),
        ensures
            y.add_spec(z).eq_spec(&Self::zero_spec()),
    ;
}

/// `x` is numerically zero.
pub open spec fn is_zero<T: Scalar>(x: T) -> bool {
    x.eq_spec(&T::zero_spec())
}

/// `x` is neither below `min` nor above `max`.
pub open spec fn within<T: PartialOrd>(x: T, min: T, max: T) -> bool {
    !x.is_lt(&min) && !x.is_gt(&max)
}

/// `min` if `input < min`, `max` if `input > max`, otherwise `input`.
///
/// A value that compares neither below `min` nor above `max` is returned as it
/// is; for floating point this means that NaN passes through unchanged.
pub open spec fn clamp_spec<T: PartialOrd>(input: T, min: T, max: T) -> T {
    if input.is_lt(&min) {
        min
    } else if input.is_gt(&max) {
        max
    } else {
        input
    }
}

/// `num_traits::clamp` returns `min` when `input < min`, else `max` when
/// `input > max`, else `input`. In debug builds it panics unless `min <= max`,
/// which the precondition rules out.
pub assume_specification<T: PartialOrd>[ num_traits::clamp::<T> ](
    input: T,
    min: T,
    max: T,
) -> (r: T)
    requires
        T::obeys_partial_cmp_spec(),
        min.is_le(&max),
    ensures
        r == clamp_spec(input, min, max),
;

/// A clamped value lies within the bounds it was clamped to.
pub proof fn lemma_clamp_within<T: Scalar>(input: T, min: T, max: T)
    requires
        min.is_le(&max),
    ensures
        within(clamp_spec(input, min, max), min, max),
{
    T::lemma_order_is_dual(min, min);
    T::lemma_order_is_dual(max, max);
    T::lemma_order_is_dual(max, min);
}

/// For a value that compares with both bounds, as every number but NaN does,
/// lying within them is `min <= x <= max`.
pub proof fn lemma_within_is_between<T: Scalar>(x: T, min: T, max: T)
    requires
        x.partial_cmp_spec(&min).is_some(),
        x.partial_cmp_spec(&max).is_some(),
    ensures
        within(x, min, max) <==> min.is_le(&x) && x.is_le(&max),
{
    T::lemma_order_is_dual(min, x);
    T::lemma_order_is_dual(x, min);
}

/// The three cases of a clamp between ordered bounds: what is above `max`
/// becomes `max`, what is below `min` becomes `min`, and what lies within
/// stays.
pub proof fn lemma_clamp_cases<T: Scalar>(input: T, min: T, max: T)
    requires
        min.is_le(&max),
    ensures
        input.is_gt(&max) ==> clamp_spec(input, min, max) == max,
        input.is_lt(&min) ==> clamp_spec(input, min, max) == min,
        within(input, min, max) ==> clamp_spec(input, min, max) == input,
{
    if input.is_gt(&max) && input.is_lt(&min) {
        T::lemma_order_is_transitive(input, min, max);
    }
}

/// Clamping to the infinities changes nothing.
pub proof fn lemma_clamp_unbounded<T: Scalar>(input: T)
    ensures
        clamp_spec(input, T::neg_infinity_spec(), T::infinity_spec()) == input,
{
    T::lemma_infinities_enclose(input);
}

} // verus!
