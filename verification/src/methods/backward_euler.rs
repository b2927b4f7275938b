//! The implicit (backward Euler) stepper: each step solves the implicit
//! equation `s1 = s0 + h * derive(t1, s1)` by fixed-point iteration.
//!
//! Per step the iteration is seeded with the current state and applies
//! `g(x) = s0 + h * derive(t1, x)` for the whole iteration budget; the
//! norm of the last increment is compared against the tolerance as the
//! convergence signal, but the signal neither ends the loop early nor is
//! reported — the budget-only policy is deliberate, and the last iterate
//! is accepted as the step's result.  If `g` is no contraction (a stiff
//! problem, or a step size too large for the derivative's Lipschitz
//! constant) the iterate can diverge silently: the stepper returns
//! whatever value the budget leaves it with.

use vstd::prelude::*;
use crate::methods::uniform_time_after;
use crate::space::NormedSpace;
use crate::space::RealField;
use crate::IVPProblem;
use crate::StopCondition;

verus! {

/// The fixed-point iterate: `k` applications of
/// `g(x) = s0 + h * derive(t1, x)` to the seed `s0`.
pub open spec fn backward_iterate<P: IVPProblem>(
    prob: P,
    t1: P::RealField,
    s0: P::NormedSpace,
    h: P::RealField,
    k: nat,
) -> P::NormedSpace
    decreases k,
{
    if k == 0 {
        s0
    } else {
        s0.add_spec(
            prob.derive_spec(t1, backward_iterate(prob, t1, s0, h, (k - 1) as nat)).scale_spec(h),
        )
    }
}

/// One implicit Euler update: from the current point `(t0, s0)`, the next
/// state is the fixed-point iterate for the new time `t0 + h` after the
/// whole iteration budget.
pub open spec fn backward_step<P: IVPProblem>(
    prob: P,
    t0: P::RealField,
    s0: P::NormedSpace,
    h: P::RealField,
    max_iter: nat,
) -> P::NormedSpace {
    backward_iterate(prob, t0.add_spec(h), s0, h, max_iter)
}

/// The state the implicit stepper holds after `n` steps of size `h` on
/// `prob`: the fold of [`backward_step`] from the initial state along the
/// uniform time grid.
pub open spec fn backward_state_after<P: IVPProblem>(
    prob: P,
    h: P::RealField,
    max_iter: nat,
    n: nat,
) -> P::NormedSpace
    decreases n,
{
    if n == 0 {
        prob.initial_state_spec()
    } else {
        backward_step(
            prob,
            uniform_time_after(prob.initial_time_spec(), h, (n - 1) as nat),
            backward_state_after(prob, h, max_iter, (n - 1) as nat),
            h,
            max_iter,
        )
    }
}

/// The implicit stepper's configuration: the uniform step size plus the
/// fixed-point convergence criteria.  It is problem-independent.
pub struct BackwardEuler<T: RealField> {
    /// The uniform time increment of every step.
    pub stepsize: T,
    /// The threshold the norm of the last fixed-point increment is
    /// compared against as the convergence signal.
    pub tolerance: T,
    /// The fixed-point iteration budget, run in full on every step.
    pub max_iter: usize,
}

impl<T: RealField> BackwardEuler<T> {
    /// Create an implicit stepper with the given step size and solver
    /// tolerance, and the default iteration budget of 50.
    pub fn new(stepsize: T, solver_tolerance: T) -> (r: Self)
        ensures
            r.stepsize == stepsize,
            r.tolerance == solver_tolerance,
            r.max_iter == 50usize,
    {
        BackwardEuler { stepsize, tolerance: solver_tolerance, max_iter: 50 }
    }

    /// Create a fresh trajectory iterator for `prob`, seeded at the
    /// problem's initial time and state; the stepper configuration moves
    /// into the iterator.
    pub fn get_iter<'a, P: IVPProblem<RealField = T>>(self, prob: &'a P) -> (it:
        BackwardEulerIterator<'a, P>)
        ensures
            it.problem == prob,
            it.solver == self,
            it.steps@ == 0,
            it.current_time == prob.initial_time_spec(),
            it.current_state == prob.initial_state_spec(),
            it.wf(),
    {
        let iterator = BackwardEulerIterator {
            current_state: *prob.get_initial_state(),
            current_time: *prob.get_initial_time(),
            problem: prob,
            solver: self,
            steps: Ghost(0nat),
        };
        iterator
    }
}

/// A lazy backward-Euler trajectory: transient, single-pass state holding
/// a reference to the problem, the stepper configuration, and the mutable
/// current time and state.  Each pull advances by exactly one step; the
/// `steps` ghost counter records how many steps have been taken.
pub struct BackwardEulerIterator<'a, P: IVPProblem> {
    /// The problem being integrated, shared and read-only.
    pub problem: &'a P,
    /// The stepper configuration the iterator was created with.
    pub solver: BackwardEuler<P::RealField>,
    /// The state reached by the last step taken.
    pub current_state: P::NormedSpace,
    /// The time reached by the last step taken.
    pub current_time: P::RealField,
    /// How many steps have been taken so far.
    pub steps: Ghost<nat>,
}

impl<'a, P: IVPProblem> BackwardEulerIterator<'a, P> {
    /// The iterator sits on the trajectory its problem and configuration
    /// determine: its current point is the `steps`-th point of the
    /// implicit-Euler fold.
    pub open spec fn wf(self) -> bool {
        &&& self.current_time == uniform_time_after(
            self.problem.initial_time_spec(),
            self.solver.stepsize,
            self.steps@,
        )
        &&& self.current_state == backward_state_after(
            *self.problem,
            self.solver.stepsize,
            self.solver.max_iter as nat,
            self.steps@,
        )
    }

    /// Advance by one implicit Euler step — running the full fixed-point
    /// iteration budget — and return the new point, or end-of-sequence if
    /// the stop condition no longer permits the new time.  The
    /// overshooting point is computed but never yielded.
    #[verifier::loop_isolation(false)]
    pub fn next(&mut self) -> (r: Option<(P::RealField, P::NormedSpace)>)
        ensures
            final(self).problem == old(self).problem,
            final(self).solver == old(self).solver,
            final(self).steps@ == old(self).steps@ + 1,
            final(self).current_time == old(self).current_time.add_spec(old(self).solver.stepsize),
            final(self).current_state == backward_step(
                *old(self).problem,
                old(self).current_time,
                old(self).current_state,
                old(self).solver.stepsize,
                old(self).solver.max_iter as nat,
            ),
            r == (if old(self).problem.stop_condition_spec().permits(final(self).current_time) {
                Some((final(self).current_time, final(self).current_state))
            } else {
                None::<(P::RealField, P::NormedSpace)>
            }),
            old(self).wf() ==> final(self).wf(),
    {
        let h = self.solver.stepsize;
        let s0 = self.current_state;
        let t1 = self.current_time.add(h);

        // Find s1 approximately solving the implicit equation
        // s1 = s0 + h * derive(t1, s1), a fixed point of
        // g(x) = s0 + h * derive(t1, x), by recursive application of g.
        let mut s1_guess = s0;
        let mut k: usize = 0;
        while k < self.solver.max_iter
            invariant
                k <= self.solver.max_iter,
                s1_guess == backward_iterate(*self.problem, t1, s0, h, k as nat),
            decreases self.solver.max_iter - k,
        {
            let ds = self.problem.derive(&t1, &s1_guess).scale(h);
            let s1_next = s0.add(ds);
            // The convergence signal: checked, but by the budget-only
            // policy it neither ends the iteration early nor is reported.
            let _within_tolerance: bool = ds.norm().lt(&self.solver.tolerance);
            s1_guess = s1_next;
            k = k + 1;
        }

        self.current_time = t1;
        self.current_state = s1_guess;
        self.steps = Ghost(self.steps@ + 1);

        let result = (t1, s1_guess);

        match self.problem.get_stop_condition() {
            StopCondition::TimeBased(t_end) => {
                if t1.le(t_end) {
                    Some(result)
                } else {
                    None
                }
            },
        }
    }
}

/// Trajectories are deterministic: two well-formed implicit iterators
/// over the same problem with the same configuration hold, after the same
/// number of steps, exactly the same time and state — so independent
/// iterators created from one problem produce identical trajectories.
pub proof fn lemma_backward_deterministic<'a, P: IVPProblem>(
    a: BackwardEulerIterator<'a, P>,
    b: BackwardEulerIterator<'a, P>,
)
    requires
        a.wf(),
        b.wf(),
        a.problem == b.problem,
        a.solver == b.solver,
        a.steps@ == b.steps@,
    ensures
        a.current_time == b.current_time,
        a.current_state == b.current_state,
{
}

} // verus!
