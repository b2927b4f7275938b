//! The integration strategies: an explicit (forward Euler) stepper and an
//! implicit (backward Euler) stepper, together with the uniform time grid
//! both of them step along.

use vstd::prelude::*;
use crate::space::RealField;
use crate::StopCondition;

mod backward_euler;
mod forward_euler;

pub use backward_euler::backward_iterate;
pub use backward_euler::backward_state_after;
pub use backward_euler::backward_step;
pub use backward_euler::BackwardEuler;
pub use backward_euler::BackwardEulerIterator;
pub use forward_euler::forward_state_after;
pub use forward_euler::forward_step;
pub use forward_euler::ForwardEuler;
pub use forward_euler::ForwardEulerIterator;

verus! {

/// The time reached after `n` uniform steps of size `h` starting at `t0`:
/// every trajectory, whichever stepper produced it, walks this grid.
pub open spec fn uniform_time_after<T: RealField>(t0: T, h: T, n: nat) -> T
    decreases n,
{
    if n == 0 {
        t0
    } else {
        uniform_time_after(t0, h, (n - 1) as nat).add_spec(h)
    }
}

/// Time is monotone under stepping: each produced point's time is exactly
/// the previous point's time plus the step size — the accumulation is one
/// field addition per step, nothing else.
pub proof fn lemma_uniform_time_step<T: RealField>(t0: T, h: T, n: nat)
    ensures
        uniform_time_after(t0, h, n + 1) == uniform_time_after(t0, h, n).add_spec(h),
{
}

/// Exhaustion is permanent: once the stop condition refuses a candidate
/// time, it refuses every later candidate on the same grid, provided the
/// step size is non-negative.  A stepper that has answered
/// end-of-sequence therefore keeps answering it on every subsequent pull.
pub proof fn lemma_exhaustion_permanent<T: RealField>(
    c: StopCondition<T>,
    t: T,
    h: T,
)
    requires
        !c.permits(t),
        T::zero_spec().le_spec(h),
    ensures
        !c.permits(t.add_spec(h)),
{
    match c {
        StopCondition::TimeBased(end_time) => {
            T::add_right_nonneg(t, h);
            if t.add_spec(h).le_spec(end_time) {
                T::le_transitive(t, t.add_spec(h), end_time);
                assert(false);
            }
        },
    }
}

} // verus!
