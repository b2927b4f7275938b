//! A generic initial-value-problem (IVP) solving framework.
//!
//! Given a state space, a derivative function, an initial condition and a
//! stopping rule, the solver produces the time-stepped trajectory of an
//! ordinary differential equation.  Two integration strategies consume a
//! problem: an explicit (forward Euler) stepper and an implicit (backward
//! Euler) stepper that performs fixed-point iteration per step.  Both
//! expose the trajectory as a lazy, single-pass, forward-only sequence of
//! `(time, state)` points.
//!
//! The solver is generic over any state type supporting vector-space
//! operations and a norm, over any real-number field type; the
//! [`space`] module states that capability contract.

use vstd::prelude::*;

pub mod methods;
pub mod problems;
pub mod space;

pub use methods::BackwardEuler;
pub use methods::ForwardEuler;
pub use space::IntegerScalar;
pub use space::NormedSpace;
pub use space::RealField;

verus! {

/// When integration of a trajectory ends: a tagged set of stopping
/// policies, open for extension.  The current policy is time based:
/// integration halts once the next candidate time exceeds `end_time`.
pub enum StopCondition<T> {
    TimeBased(T),
}

impl<T: RealField> StopCondition<T> {
    /// Whether a trajectory point at time `t` may still be yielded: for
    /// `TimeBased(end_time)`, exactly when `t` has not passed `end_time`.
    pub open spec fn permits(self, t: T) -> bool {
        match self {
            StopCondition::TimeBased(end_time) => t.le_spec(end_time),
        }
    }
}

/// The right-hand side of an ordinary differential equation, as an owned
/// function object: `eval(t, s)` is dS/dt at the point `(t, s)`.
///
/// `eval` is pinned to the specification-level `eval_spec`, so a
/// derivative is a pure function of its arguments — no hidden mutable
/// state, callable any number of times with consistent results.  The
/// implicit stepper relies on this when it evaluates the derivative
/// repeatedly within one step.
pub trait Derivative {
    /// The scalar field of the problem's time axis.
    type RealField: RealField;

    /// The state space the trajectory moves in.
    type NormedSpace: NormedSpace<RealField = Self::RealField>;

    /// What `eval` returns.
    spec fn eval_spec(&self, t: Self::RealField, s: Self::NormedSpace) -> Self::NormedSpace;

    /// Evaluate the right-hand side at `(t, s)`.
    fn eval(&self, t: &Self::RealField, s: &Self::NormedSpace) -> (r: Self::NormedSpace)
        ensures
            r == self.eval_spec(*t, *s),
    ;
}

/// The contract a solvable IVP must expose: an initial state, an initial
/// time, a derivative function and a stop condition.
///
/// A problem is read-only: every getter is pinned to a specification-level
/// value of the problem, so repeated calls return the same value, and
/// `derive` is a pure function of `(t, s)`.  One problem may therefore
/// drive any number of independent trajectories.
pub trait IVPProblem {
    /// The scalar field of the problem's time axis.
    type RealField: RealField;

    /// The state space the trajectory moves in.
    type NormedSpace: NormedSpace<RealField = Self::RealField>;

    /// The starting state, at the specification level.
    spec fn initial_state_spec(&self) -> Self::NormedSpace;

    /// The starting time, at the specification level.
    spec fn initial_time_spec(&self) -> Self::RealField;

    /// What `derive` returns.
    spec fn derive_spec(&self, t: Self::RealField, s: Self::NormedSpace) -> Self::NormedSpace;

    /// The stop condition, at the specification level.
    spec fn stop_condition_spec(&self) -> StopCondition<Self::RealField>;

    /// The starting state; stable (same value on every call).
    fn get_initial_state(&self) -> (r: &Self::NormedSpace)
        ensures
            *r == self.initial_state_spec(),
    ;

    /// The starting time; stable (same value on every call).
    fn get_initial_time(&self) -> (r: &Self::RealField)
        ensures
            *r == self.initial_time_spec(),
    ;

    /// Evaluate the right-hand side dS/dt at an arbitrary `(t, s)` pair.
    fn derive(&self, t: &Self::RealField, s: &Self::NormedSpace) -> (r: Self::NormedSpace)
        ensures
            r == self.derive_spec(*t, *s),
    ;

    /// The policy deciding when the trajectory ends.
    fn get_stop_condition(&self) -> (r: &StopCondition<Self::RealField>)
        ensures
            *r == self.stop_condition_spec(),
    ;
}

/// The immutable specification of one IVP instance, assembled from plain
/// parts: the ready-made [`IVPProblem`] implementation that problem
/// authors construct directly, supplying the derivative as any
/// [`Derivative`] function object.
pub struct IVPProblemBase<F: Derivative> {
    /// The state the trajectory starts from.
    pub initial_state: F::NormedSpace,
    /// The time the trajectory starts at.
    pub initial_time: F::RealField,
    /// When integration ends.
    pub stop_condition: StopCondition<F::RealField>,
    /// The right-hand side of the equation, owned for the problem's
    /// entire lifetime.
    pub func: F,
}

impl<F: Derivative> IVPProblem for IVPProblemBase<F> {
    type RealField = F::RealField;

    type NormedSpace = F::NormedSpace;

    open spec fn initial_state_spec(&self) -> F::NormedSpace {
        self.initial_state
    }

    open spec fn initial_time_spec(&self) -> F::RealField {
        self.initial_time
    }

    open spec fn derive_spec(&self, t: F::RealField, s: F::NormedSpace) -> F::NormedSpace {
        self.func.eval_spec(t, s)
    }

    open spec fn stop_condition_spec(&self) -> StopCondition<F::RealField> {
        self.stop_condition
    }

    fn get_initial_state(&self) -> (r: &F::NormedSpace) {
        &self.initial_state
    }

    fn get_initial_time(&self) -> (r: &F::RealField) {
        &self.initial_time
    }

    fn derive(&self, t: &F::RealField, s: &F::NormedSpace) -> (r: F::NormedSpace) {
        self.func.eval(t, s)
    }

    fn get_stop_condition(&self) -> (r: &StopCondition<F::RealField>) {
        &self.stop_condition
    }
}

} // verus!
