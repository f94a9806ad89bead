//! The counts a run is configured with, checked before anything runs.

use vstd::prelude::*;

verus! {

/// Why a pair of counts is refused.
#[derive(Clone, Copy, Debug, PartialEq, Eq, Structural)]
pub enum ConfigError {
    /// The number of bodies is below zero.
    NegativePopulation,
    /// The number of timesteps is below zero.
    NegativeTimestepCount,
}

/// Counts that passed the check: how many bodies there are and how many
/// steps the run takes.
#[derive(Clone, Copy, Debug, PartialEq, Eq, Structural)]
pub struct Counts {
    pub population: usize,
    pub timesteps: u32,
}

/// Checks the two counts of a configuration.
///
/// Both must be zero or more. The population is looked at first, so a
/// configuration in which both are negative is refused for its population.
pub fn check_counts(population: i32, timesteps: i32) -> (checked: Result<Counts, ConfigError>)
    ensures
        population < 0 ==> checked == Err::<Counts, ConfigError>(ConfigError::NegativePopulation),
        population >= 0 && timesteps < 0 ==> checked == Err::<Counts, ConfigError>(
            ConfigError::NegativeTimestepCount,
        ),
        population >= 0 && timesteps >= 0 ==> checked.is_ok() && checked.unwrap().population
            == population && checked.unwrap().timesteps == timesteps,
{
    if population < 0 {
        Err(ConfigError::NegativePopulation)
    } else if timesteps < 0 {
        Err(ConfigError::NegativeTimestepCount)
    } else {
        Ok(Counts { population: population as usize, timesteps: timesteps as u32 })
    }
}

} // verus!
