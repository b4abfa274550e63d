//! Configurations of the models.

use vstd::prelude::*;

verus! {

/// Configuration of a Stable Diffusion model: the number of timesteps its
/// noise schedule was trained with.
#[derive(Debug, Clone, Copy, PartialEq, Eq)]
pub struct StableDiffusionConfig {
    train_steps: usize,
}

impl StableDiffusionConfig {
    pub closed spec fn spec_train_steps(self) -> usize {
        self.train_steps
    }

    /// A configuration for a schedule of `train_steps` timesteps.
    pub fn new(train_steps: usize) -> (config: Self)
        ensures
            config.spec_train_steps() == train_steps,
    {
        StableDiffusionConfig { train_steps }
    }

    /// The number of timesteps of the noise schedule.
    pub fn train_steps(&self) -> (n: usize)
        ensures
            n == self.spec_train_steps(),
    {
        self.train_steps
    }
}

/// Configuration of the model that holds the noise schedule alone, used to
/// import a checkpoint's schedule; it has no settings.
#[derive(Debug, Clone, Copy, PartialEq, Eq)]
pub struct SDConfig {}

impl SDConfig {
    /// The configuration.
    pub fn new() -> (config: Self)
        ensures
            config == (SDConfig {}),
    {
        SDConfig {}
    }
}

} // verus!
