//! The explicit (forward Euler) stepper: single-evaluation explicit
//! updates, one derivative evaluation per accepted step.

use vstd::prelude::*;
use crate::methods::uniform_time_after;
use crate::space::NormedSpace;
use crate::space::RealField;
use crate::IVPProblem;
use crate::StopCondition;

verus! {

/// One explicit Euler update: from the current point `(t, s)`, the next
/// state is `s + h * derive(t, s)`.
pub open spec fn forward_step<P: IVPProblem>(
    prob: P,
    t: P::RealField,
    s: P::NormedSpace,
    h: P::RealField,
) -> P::NormedSpace {
    s.add_spec(prob.derive_spec(t, s).scale_spec(h))
}

/// The state the explicit stepper holds after `n` steps of size `h` on
/// `prob`: the fold of [`forward_step`] from the initial state along the
/// uniform time grid.
pub open spec fn forward_state_after<P: IVPProblem>(prob: P, h: P::RealField, n: nat) -> P::NormedSpace
    decreases n,
{
    if n == 0 {
        prob.initial_state_spec()
    } else {
        forward_step(
            prob,
            uniform_time_after(prob.initial_time_spec(), h, (n - 1) as nat),
            forward_state_after(prob, h, (n - 1) as nat),
            h,
        )
    }
}

/// The explicit stepper's configuration: a fixed, uniform step size.  It
/// is problem-independent and may be reused across problems.
pub struct ForwardEuler<T: RealField> {
    /// The uniform time increment of every step.
    pub stepsize: T,
}

impl<T: RealField> ForwardEuler<T> {
    /// Create an explicit stepper with the given step size.
    pub fn new(stepsize: T) -> (r: Self)
        ensures
            r.stepsize == stepsize,
    {
        ForwardEuler { stepsize }
    }

    /// Create a fresh trajectory iterator for `prob`, seeded at the
    /// problem's initial time and state with this stepper's step size.
    pub fn get_iter<'a, P: IVPProblem<RealField = T>>(&self, prob: &'a P) -> (it:
        ForwardEulerIterator<'a, P>)
        ensures
            it.prob == prob,
            it.h == self.stepsize,
            it.steps@ == 0,
            it.current_time == prob.initial_time_spec(),
            it.current_state == prob.initial_state_spec(),
            it.wf(),
    {
        let iterator = ForwardEulerIterator {
            current_state: *prob.get_initial_state(),
            current_time: *prob.get_initial_time(),
            prob,
            h: self.stepsize,
            steps: Ghost(0nat),
        };
        iterator
    }
}

/// A lazy forward-Euler trajectory: transient, single-pass state holding
/// a reference to the problem, a copy of the step size, and the mutable
/// current time and state.  Each pull advances by exactly one step; the
/// `steps` ghost counter records how many steps have been taken.
pub struct ForwardEulerIterator<'a, P: IVPProblem> {
    /// The state reached by the last step taken.
    pub current_state: P::NormedSpace,
    /// The time reached by the last step taken.
    pub current_time: P::RealField,
    /// The problem being integrated, shared and read-only.
    pub prob: &'a P,
    /// The uniform step size.
    pub h: P::RealField,
    /// How many steps have been taken so far.
    pub steps: Ghost<nat>,
}

impl<'a, P: IVPProblem> ForwardEulerIterator<'a, P> {
    /// The iterator sits on the trajectory its problem and step size
    /// determine: its current point is the `steps`-th point of the
    /// explicit-Euler fold.
    pub open spec fn wf(self) -> bool {
        &&& self.current_time == uniform_time_after(
            self.prob.initial_time_spec(),
            self.h,
            self.steps@,
        )
        &&& self.current_state == forward_state_after(*self.prob, self.h, self.steps@)
    }

    /// Advance by one explicit Euler step and return the new point, or
    /// end-of-sequence if the stop condition no longer permits the new
    /// time.  The overshooting point is computed but never yielded.
    pub fn next(&mut self) -> (r: Option<(P::RealField, P::NormedSpace)>)
        ensures
            final(self).prob == old(self).prob,
            final(self).h == old(self).h,
            final(self).steps@ == old(self).steps@ + 1,
            final(self).current_time == old(self).current_time.add_spec(old(self).h),
            final(self).current_state == forward_step(
                *old(self).prob,
                old(self).current_time,
                old(self).current_state,
                old(self).h,
            ),
            r == (if old(self).prob.stop_condition_spec().permits(final(self).current_time) {
                Some((final(self).current_time, final(self).current_state))
            } else {
                None::<(P::RealField, P::NormedSpace)>
            }),
            old(self).wf() ==> final(self).wf(),
    {
        let ds = self.prob.derive(&self.current_time, &self.current_state);
        let t1 = self.current_time.add(self.h);
        let s1 = self.current_state.add(ds.scale(self.h));

        self.current_time = t1;
        self.current_state = s1;
        self.steps = Ghost(self.steps@ + 1);

        let result = (t1, s1);

        match self.prob.get_stop_condition() {
            StopCondition::TimeBased(t_end) => {
                if t1.le(t_end) {
                    Some(result)
                } else {
                    None
                }
            },
        }
    }
}

/// Trajectories are deterministic: two well-formed explicit iterators
/// over the same problem with the same step size hold, after the same
/// number of steps, exactly the same time and state — so independent
/// iterators created from one problem produce identical trajectories.
pub proof fn lemma_forward_deterministic<'a, P: IVPProblem>(
    a: ForwardEulerIterator<'a, P>,
    b: ForwardEulerIterator<'a, P>,
)
    requires
        a.wf(),
        b.wf(),
        a.prob == b.prob,
        a.h == b.h,
        a.steps@ == b.steps@,
    ensures
        a.current_time == b.current_time,
        a.current_state == b.current_state,
{
}

} // verus!
