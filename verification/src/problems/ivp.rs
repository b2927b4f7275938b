//! Example IVPs: the scalar exponential-growth problem and the Van der
//! Pol oscillator, stated over two small generic state types.

use vstd::prelude::*;
use crate::space::abs;
use crate::space::abs_spec;
use crate::space::NormedSpace;
use crate::space::RealField;
use crate::Derivative;
use crate::IVPProblemBase;
use crate::StopCondition;

verus! {

/// A one-dimensional state: the field itself used as the state space.
#[derive(Clone, Copy)]
pub struct ScalarState<T: RealField> {
    /// The single component of the state.
    pub value: T,
}

impl<T: RealField> NormedSpace for ScalarState<T> {
    type RealField = T;

    open spec fn add_spec(self, rhs: Self) -> Self {
        ScalarState { value: self.value.add_spec(rhs.value) }
    }

    open spec fn scale_spec(self, k: T) -> Self {
        ScalarState { value: self.value.mul_spec(k) }
    }

    open spec fn norm_spec(self) -> T {
        abs_spec(self.value)
    }

    fn add(self, rhs: Self) -> (r: Self) {
        ScalarState { value: self.value.add(rhs.value) }
    }

    fn scale(self, k: T) -> (r: Self) {
        ScalarState { value: self.value.mul(k) }
    }

    fn norm(&self) -> (r: T) {
        abs(self.value)
    }
}

/// A two-dimensional state with componentwise addition and scaling, and
/// the taxicab norm (which needs nothing from the field beyond its own
/// arithmetic and order).
#[derive(Clone, Copy)]
pub struct Vector2<T: RealField> {
    /// The first component.
    pub x: T,
    /// The second component.
    pub y: T,
}

impl<T: RealField> NormedSpace for Vector2<T> {
    type RealField = T;

    open spec fn add_spec(self, rhs: Self) -> Self {
        Vector2 { x: self.x.add_spec(rhs.x), y: self.y.add_spec(rhs.y) }
    }

    open spec fn scale_spec(self, k: T) -> Self {
        Vector2 { x: self.x.mul_spec(k), y: self.y.mul_spec(k) }
    }

    open spec fn norm_spec(self) -> T {
        abs_spec(self.x).add_spec(abs_spec(self.y))
    }

    fn add(self, rhs: Self) -> (r: Self) {
        Vector2 { x: self.x.add(rhs.x), y: self.y.add(rhs.y) }
    }

    fn scale(self, k: T) -> (r: Self) {
        Vector2 { x: self.x.mul(k), y: self.y.mul(k) }
    }

    fn norm(&self) -> (r: T) {
        abs(self.x).add(abs(self.y))
    }
}

/// The right-hand side of exponential growth, dy/dt = y.
pub struct ExponentialDerivative<T: RealField> {
    /// The derivative carries no data; the marker fixes its field type.
    pub phantom: core::marker::PhantomData<T>,
}

impl<T: RealField> Derivative for ExponentialDerivative<T> {
    type RealField = T;

    type NormedSpace = ScalarState<T>;

    open spec fn eval_spec(&self, t: T, s: ScalarState<T>) -> ScalarState<T> {
        s
    }

    fn eval(&self, t: &T, s: &ScalarState<T>) -> (r: ScalarState<T>) {
        *s
    }
}

/// The scalar exponential-growth problem dy/dt = y with y(0) = 1,
/// integrated over the unit time interval; its exact solution at the end
/// time is Euler's number e.
pub fn get_exponential_problem<T: RealField>() -> (p: IVPProblemBase<ExponentialDerivative<T>>)
    ensures
        p.initial_state == (ScalarState { value: T::one_spec() }),
        p.initial_time == T::zero_spec(),
        p.stop_condition == StopCondition::<T>::TimeBased(T::one_spec()),
{
    IVPProblemBase {
        initial_state: ScalarState { value: T::one() },
        initial_time: T::zero(),
        stop_condition: StopCondition::TimeBased(T::one()),
        func: ExponentialDerivative { phantom: core::marker::PhantomData },
    }
}

/// The Van der Pol oscillator with damping parameter `mu`: a function
/// object that serves as the derivative of its own IVP (it is the `func`
/// of the problem that [`Fn::get_ivp_problem`] builds).
///
/// The oscillator's second-order equation
/// `d2x/dt2 - mu * (1 - x*x) * dx/dt + x = 0`
/// is rewritten with `v = dx/dt` as the first-order system
/// `dx/dt = v`, `dv/dt = mu * (1 - x*x) * v - x`.
#[derive(Clone, Copy)]
pub struct Fn<T: RealField> {
    /// The damping parameter of the oscillator.
    pub mu: T,
}

impl<T: RealField> Fn<T> {
    /// Create the oscillator with the given damping parameter.
    pub fn new(mu: T) -> (r: Self)
        ensures
            r.mu == mu,
    {
        Fn { mu }
    }

    /// What `apply` returns: the first-order Van der Pol system at
    /// `(t, s)`, with `s.x` the position and `s.y` the velocity.
    pub open spec fn apply_spec(self, t: T, s: Vector2<T>) -> Vector2<T> {
        Vector2 {
            x: s.y,
            y: self.mu.mul_spec(T::one_spec().sub_spec(s.x.mul_spec(s.x))).mul_spec(s.y).sub_spec(
                s.x,
            ),
        }
    }

    /// Evaluate the first-order Van der Pol system at `(t, s)`.
    pub fn apply(&self, t: T, s: Vector2<T>) -> (r: Vector2<T>)
        ensures
            r == self.apply_spec(t, s),
    {
        let x = s.x;
        let v = s.y;
        let one = T::one();
        Vector2 { x: v, y: self.mu.mul(one.sub(x.mul(x))).mul(v).sub(x) }
    }

    /// The oscillator as an IVP: start at position and velocity one at
    /// time zero and integrate over the unit time interval.
    pub fn get_ivp_problem(&self) -> (p: IVPProblemBase<Fn<T>>)
        ensures
            p.initial_state == (Vector2 { x: T::one_spec(), y: T::one_spec() }),
            p.initial_time == T::zero_spec(),
            p.stop_condition == StopCondition::<T>::TimeBased(T::one_spec()),
            p.func == *self,
    {
        let one = T::one();
        let zero = T::zero();
        let s0 = Vector2 { x: one, y: one };
        IVPProblemBase {
            initial_state: s0,
            initial_time: zero,
            stop_condition: StopCondition::TimeBased(one),
            func: *self,
        }
    }
}

impl<T: RealField> Derivative for Fn<T> {
    type RealField = T;

    type NormedSpace = Vector2<T>;

    open spec fn eval_spec(&self, t: T, s: Vector2<T>) -> Vector2<T> {
        self.apply_spec(t, s)
    }

    fn eval(&self, t: &T, s: &Vector2<T>) -> (r: Vector2<T>) {
        self.apply(*t, *s)
    }
}

} // verus!
