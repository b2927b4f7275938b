//! The state-space capability contract: the minimal operations a scalar
//! field type and a state type must support for time stepping.
//!
//! The solver is generic over any real-number field `T` and any state `S`
//! forming a normed vector space over `T`.  Implementors supply the
//! operations together with their specification-level meaning (`add_spec`
//! and friends), so that trajectories can be reasoned about exactly, in
//! terms of the implementor's own arithmetic (including whatever rounding
//! that arithmetic performs).

use vstd::prelude::*;

verus! {

/// A real-number scalar field: ordering, arithmetic, and the two
/// distinguished elements `zero` and `one`.  Values are immutable and
/// copied freely.
///
/// Each executable operation is pinned to a specification-level function
/// of the same arguments, so that a field operation applied twice to the
/// same operands gives the same result.  The two proof obligations state
/// the ordering facts the steppers rely on: `le` is transitive, and adding
/// a non-negative step never moves time backwards.
pub trait RealField: Sized + Copy {
    /// The additive identity, at the specification level.
    spec fn zero_spec() -> Self;

    /// The multiplicative identity, at the specification level.
    spec fn one_spec() -> Self;

    /// What `add` returns.
    spec fn add_spec(self, rhs: Self) -> Self;

    /// What `sub` returns.
    spec fn sub_spec(self, rhs: Self) -> Self;

    /// What `mul` returns.
    spec fn mul_spec(self, rhs: Self) -> Self;

    /// What `le` returns: the field's total order.
    spec fn le_spec(self, rhs: Self) -> bool;

    /// What `lt` returns: the strict version of the order.
    spec fn lt_spec(self, rhs: Self) -> bool;

    /// The additive identity.
    fn zero() -> (r: Self)
        ensures
            r == Self::zero_spec(),
    ;

    /// The multiplicative identity.
    fn one() -> (r: Self)
        ensures
            r == Self::one_spec(),
    ;

    /// Field addition.
    fn add(self, rhs: Self) -> (r: Self)
        ensures
            r == self.add_spec(rhs),
    ;

    /// Field subtraction.
    fn sub(self, rhs: Self) -> (r: Self)
        ensures
            r == self.sub_spec(rhs),
    ;

    /// Field multiplication.
    fn mul(self, rhs: Self) -> (r: Self)
        ensures
            r == self.mul_spec(rhs),
    ;

    /// Non-strict comparison, used for the time-based stop condition.
    fn le(&self, rhs: &Self) -> (r: bool)
        ensures
            r == self.le_spec(*rhs),
    ;

    /// Strict comparison, used as the convergence signal of the implicit
    /// stepper.
    fn lt(&self, rhs: &Self) -> (r: bool)
        ensures
            r == self.lt_spec(*rhs),
    ;

    /// The order is transitive.
    proof fn le_transitive(a: Self, b: Self, c: Self)
        requires
            a.le_spec(b),
            b.le_spec(c),
        ensures
            a.le_spec(c),
    ;

    /// Adding a non-negative increment never decreases a value.
    proof fn add_right_nonneg(t: Self, h: Self)
        requires
            Self::zero_spec().le_spec(h),
        ensures
            t.le_spec(t.add_spec(h)),
    ;
}

/// The absolute value of a field element, at the specification level.
pub open spec fn abs_spec<T: RealField>(x: T) -> T {
    if x.lt_spec(T::zero_spec()) {
        T::zero_spec().sub_spec(x)
    } else {
        x
    }
}

/// The absolute value of a field element, built from the field's own
/// comparison and subtraction.
pub fn abs<T: RealField>(x: T) -> (r: T)
    ensures
        r == abs_spec(x),
{
    let zero = T::zero();
    if x.lt(&zero) {
        zero.sub(x)
    } else {
        x
    }
}

/// A state type: an element of a normed vector space over the field
/// `Self::RealField`.  States are immutable values passed by copy; the
/// steppers only ever add states, scale them by a field element, and take
/// their norm.
///
/// As in [`RealField`], each executable operation is pinned to its
/// specification-level counterpart, which makes the derivative-and-update
/// computations of the steppers deterministic functions of their inputs.
pub trait NormedSpace: Sized + Copy {
    /// The scalar field the space is over.
    type RealField: RealField;

    /// What `add` returns.
    spec fn add_spec(self, rhs: Self) -> Self;

    /// What `scale` returns.
    spec fn scale_spec(self, k: Self::RealField) -> Self;

    /// What `norm` returns.
    spec fn norm_spec(self) -> Self::RealField;

    /// Vector addition.
    fn add(self, rhs: Self) -> (r: Self)
        ensures
            r == self.add_spec(rhs),
    ;

    /// Multiplication by a scalar.
    fn scale(self, k: Self::RealField) -> (r: Self)
        ensures
            r == self.scale_spec(k),
    ;

    /// The norm of the state, a scalar measure of its size.
    fn norm(&self) -> (r: Self::RealField)
        ensures
            r == self.norm_spec(),
    ;
}

/// Clamp an unbounded integer into the range of `i64`.
pub open spec fn clip64(x: int) -> int {
    if x > i64::MAX as int {
        i64::MAX as int
    } else if x < i64::MIN as int {
        i64::MIN as int
    } else {
        x
    }
}

/// A concrete scalar: the 64-bit integers under saturating arithmetic.
///
/// It is the exact, fully verified anchor of the capability contract:
/// every operation and both ordering laws of [`RealField`] are proved of
/// it, and as its own one-dimensional state space it drives trajectories
/// whose arithmetic has no rounding at all.
#[derive(Clone, Copy, Debug, PartialEq, Eq, Structural)]
pub struct IntegerScalar {
    /// The integer the scalar stands for.
    pub value: i64,
}

impl RealField for IntegerScalar {
    open spec fn zero_spec() -> Self {
        IntegerScalar { value: 0 }
    }

    open spec fn one_spec() -> Self {
        IntegerScalar { value: 1 }
    }

    open spec fn add_spec(self, rhs: Self) -> Self {
        IntegerScalar { value: clip64(self.value + rhs.value) as i64 }
    }

    open spec fn sub_spec(self, rhs: Self) -> Self {
        IntegerScalar { value: clip64(self.value - rhs.value) as i64 }
    }

    open spec fn mul_spec(self, rhs: Self) -> Self {
        IntegerScalar { value: clip64(self.value * rhs.value) as i64 }
    }

    open spec fn le_spec(self, rhs: Self) -> bool {
        self.value <= rhs.value
    }

    open spec fn lt_spec(self, rhs: Self) -> bool {
        self.value < rhs.value
    }

    fn zero() -> (r: Self) {
        IntegerScalar { value: 0 }
    }

    fn one() -> (r: Self) {
        IntegerScalar { value: 1 }
    }

    fn add(self, rhs: Self) -> (r: Self) {
        match self.value.checked_add(rhs.value) {
            Some(v) => IntegerScalar { value: v },
            None => if self.value > 0 {
                IntegerScalar { value: i64::MAX }
            } else {
                IntegerScalar { value: i64::MIN }
            },
        }
    }

    fn sub(self, rhs: Self) -> (r: Self) {
        match self.value.checked_sub(rhs.value) {
            Some(v) => IntegerScalar { value: v },
            None => if rhs.value < 0 {
                IntegerScalar { value: i64::MAX }
            } else {
                IntegerScalar { value: i64::MIN }
            },
        }
    }

    fn mul(self, rhs: Self) -> (r: Self) {
        match self.value.checked_mul(rhs.value) {
            Some(v) => IntegerScalar { value: v },
            None => {
                proof {
                    let a = self.value as int;
                    let b = rhs.value as int;
                    assert(a * b > i64::MAX as int || a * b < i64::MIN as int);
                    assert(a == 0 ==> a * b == 0) by (nonlinear_arith);
                    assert(b == 0 ==> a * b == 0) by (nonlinear_arith);
                    assert((a > 0 && b > 0) ==> a * b > 0) by (nonlinear_arith);
                    assert((a < 0 && b < 0) ==> a * b > 0) by (nonlinear_arith);
                    assert((a > 0 && b < 0) ==> a * b < 0) by (nonlinear_arith);
                    assert((a < 0 && b > 0) ==> a * b < 0) by (nonlinear_arith);
                    if (a > 0) == (b > 0) {
                        assert(a * b > i64::MAX as int);
                    } else {
                        assert(a * b < i64::MIN as int);
                    }
                }
                if (self.value > 0) == (rhs.value > 0) {
                    IntegerScalar { value: i64::MAX }
                } else {
                    IntegerScalar { value: i64::MIN }
                }
            },
        }
    }

    fn le(&self, rhs: &Self) -> (r: bool) {
        self.value <= rhs.value
    }

    fn lt(&self, rhs: &Self) -> (r: bool) {
        self.value < rhs.value
    }

    proof fn le_transitive(a: Self, b: Self, c: Self) {
    }

    proof fn add_right_nonneg(t: Self, h: Self) {
    }
}

impl NormedSpace for IntegerScalar {
    type RealField = IntegerScalar;

    open spec fn add_spec(self, rhs: Self) -> Self {
        RealField::add_spec(self, rhs)
    }

    open spec fn scale_spec(self, k: Self) -> Self {
        RealField::mul_spec(self, k)
    }

    open spec fn norm_spec(self) -> Self {
        abs_spec(self)
    }

    fn add(self, rhs: Self) -> (r: Self) {
        RealField::add(self, rhs)
    }

    fn scale(self, k: Self) -> (r: Self) {
        RealField::mul(self, k)
    }

    fn norm(&self) -> (r: Self) {
        abs(*self)
    }
}

} // verus!
