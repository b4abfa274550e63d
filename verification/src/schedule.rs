//! The timesteps that the deterministic (DDIM-style) sampler visits while it
//! denoises a latent, and which entry of the cumulative-alpha table each step
//! reads.

use vstd::prelude::*;

verus! {

/// Number of diffusion timesteps the model was trained with; the
/// cumulative-alpha table has one entry per timestep.
pub const TRAIN_TIMESTEPS: usize = 1000;

/// One denoising step: the timestep whose alpha is current, and the timestep
/// whose alpha is the previous one (`None` when the step ends at the clean
/// image, whose alpha is 1).
#[derive(Debug, Clone, Copy, PartialEq, Eq)]
pub struct DiffusionStep {
    pub timestep: usize,
    pub previous: Option<usize>,
}

/// The distance between two visited timesteps when sampling in `n_steps` steps.
pub open spec fn spec_step_size(n_steps: nat) -> nat {
    TRAIN_TIMESTEPS as nat / n_steps
}

/// The timestep of step `i`, counted from the first step: the last trained
/// timestep, lowered by one step size per step.
pub open spec fn spec_timestep(n_steps: nat, i: int) -> int {
    TRAIN_TIMESTEPS - 1 - i * spec_step_size(n_steps)
}

/// The timestep whose alpha is the "previous" one at step `i`: the timestep of
/// the next step, or none after the last step, which ends at the clean image.
pub open spec fn spec_previous(n_steps: nat, i: int) -> Option<usize> {
    if i + 1 < n_steps {
        Some(spec_timestep(n_steps, i + 1) as usize)
    } else {
        None
    }
}

/// The schedule that the sampler walks in `n_steps` denoising steps. A
/// count of 0 would divide by zero and a count above `TRAIN_TIMESTEPS` would
/// make the step size 0, so both are excluded.
pub fn sampling_schedule(n_steps: usize) -> (steps: Vec<DiffusionStep>)
    requires
        0 < n_steps <= TRAIN_TIMESTEPS,
    ensures
        // exactly the requested number of denoising steps
        steps.len() == n_steps,
        forall|i: int|
            0 <= i < steps.len() ==> {
                &&& #[trigger] steps[i].timestep == spec_timestep(n_steps as nat, i)
                &&& steps[i].previous == spec_previous(n_steps as nat, i)
            },
        // consecutive steps are one step size, the trained count divided by the requested one, apart
        forall|i: int|
            0 <= i < steps.len() - 1 ==> #[trigger] steps[i].timestep == steps[i + 1].timestep + TRAIN_TIMESTEPS
                / n_steps,
        // the walk starts at the last trained timestep
        steps[0].timestep == TRAIN_TIMESTEPS - 1,
        // every step reads an entry of the alpha table
        forall|i: int| 0 <= i < steps.len() ==> #[trigger] steps[i].timestep < TRAIN_TIMESTEPS,
        // the timesteps strictly decrease
        forall|i: int, j: int| 0 <= i < j < steps.len() ==> steps[j].timestep < steps[i].timestep,
        // the previous alpha of a step is the current alpha of the next step
        forall|i: int| 0 <= i < steps.len() - 1 ==> #[trigger] steps[i].previous == Some(steps[i + 1].timestep),
        // the last step ends at the clean image
        steps[steps.len() - 1].previous is None,
{
    let step_size = TRAIN_TIMESTEPS / n_steps;
    assert(step_size >= 1 && n_steps * step_size <= 1000) by (nonlinear_arith)
        requires
            step_size == 1000usize / n_steps,
            0 < n_steps <= 1000,
    ;
    let ghost s = step_size as int;
    let mut steps: Vec<DiffusionStep> = Vec::new();
    let mut t: usize = TRAIN_TIMESTEPS - 1;
    assert(0 * s == 0) by (nonlinear_arith);
    for i in 0..n_steps
        invariant
            step_size == spec_step_size(n_steps as nat),
            s == step_size,
            s >= 1,
            n_steps * s <= 1000,
            steps.len() == i,
            i < n_steps ==> t + i * s == TRAIN_TIMESTEPS - 1,
            forall|k: int|
                0 <= k < steps.len() ==> {
                    &&& #[trigger] steps[k].timestep == spec_timestep(n_steps as nat, k)
                    &&& steps[k].previous == spec_previous(n_steps as nat, k)
                },
    {
        assert(t == spec_timestep(n_steps as nat, i as int));
        let previous = if i + 1 < n_steps {
            assert(t >= s) by (nonlinear_arith)
                requires
                    t + i * s == 999,
                    i + 1 < n_steps,
                    n_steps * s <= 1000,
                    s >= 1,
            ;
            assert(t - s == spec_timestep(n_steps as nat, i + 1)) by (nonlinear_arith)
                requires
                    t + i * s == 999,
                    s == spec_step_size(n_steps as nat),
            ;
            Some(t - step_size)
        } else {
            None
        };
        steps.push(DiffusionStep { timestep: t, previous });
        if i + 1 < n_steps {
            assert(t - s + (i + 1) * s == 999) by (nonlinear_arith)
                requires
                    t + i * s == 999,
            ;
            t = t - step_size;
        }
    }
    proof {
        let n = n_steps as int;
        assert forall|i: int, j: int| 0 <= i < j < n implies steps[j].timestep < steps[i].timestep by {
            assert(i * s < j * s) by (nonlinear_arith)
                requires
                    i < j,
                    s >= 1,
            ;
        }
        assert forall|i: int| 0 <= i < n implies #[trigger] steps[i].timestep < TRAIN_TIMESTEPS by {
            assert(i * s >= 0) by (nonlinear_arith)
                requires
                    i >= 0,
                    s >= 1,
            ;
        }
        assert forall|i: int| 0 <= i < n - 1 implies #[trigger] steps[i].timestep == steps[i + 1].timestep
            + TRAIN_TIMESTEPS / n_steps by {
            assert((i + 1) * s == i * s + s) by (nonlinear_arith);
        }
        assert(steps[0].timestep == spec_timestep(n_steps as nat, 0));
        assert(steps[n - 1].previous == spec_previous(n_steps as nat, n - 1));
    }
    steps
}

} // verus!
