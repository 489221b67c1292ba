//! The static configuration of a game and the ways in which it can be
//! unplayable.

use vstd::prelude::*;

verus! {

/// The smallest grid on which the snake starts inside the interior.
pub const MIN_MAP_SIZE: u32 = 5;

/// Why a configuration was turned down.
#[derive(Clone, Copy, Debug, PartialEq, Eq, Structural)]
pub enum ConfigError {
    /// The grid has fewer than `MIN_MAP_SIZE` cells to a side.
    MapTooSmall,
    /// The time between two steps of the snake is zero.
    ZeroStepTime,
    /// The time after which a turn may take effect is zero.
    ZeroTurnTime,
}

/// The fault of a configuration: the first of the three that applies, or
/// `None` for a configuration that can be played.
pub open spec fn config_fault(map_size: u32, step_time: u64, turn_time: u64) -> Option<
    ConfigError,
> {
    if map_size < MIN_MAP_SIZE {
        Some(ConfigError::MapTooSmall)
    } else if step_time == 0 {
        Some(ConfigError::ZeroStepTime)
    } else if turn_time == 0 {
        Some(ConfigError::ZeroTurnTime)
    } else {
        None
    }
}

/// Whether a game can be played on a grid of `map_size` cells to a side with
/// these two durations.
pub open spec fn playable(map_size: u32, step_time: u64, turn_time: u64) -> bool {
    map_size >= MIN_MAP_SIZE && step_time > 0 && turn_time > 0
}

/// Checks a configuration: `Ok` exactly for a playable one, else the first
/// fault.
pub fn check_config(map_size: u32, step_time: u64, turn_time: u64) -> (checked: Result<
    (),
    ConfigError,
>)
    ensures
        checked.is_ok() <==> playable(map_size, step_time, turn_time),
        checked is Err ==> config_fault(map_size, step_time, turn_time) == Some(
            checked->Err_0,
        ),
{
    if map_size < MIN_MAP_SIZE {
        Err(ConfigError::MapTooSmall)
    } else if step_time == 0 {
        Err(ConfigError::ZeroStepTime)
    } else if turn_time == 0 {
        Err(ConfigError::ZeroTurnTime)
    } else {
        Ok(())
    }
}

impl ConfigError {
    /// A sentence that says what is wrong with the configuration.
    pub fn message(&self) -> (text: String)
        ensures
            text@ == self.spec_message(),
    {
        match self {
            ConfigError::MapTooSmall => "the map needs at least 5 cells to a side".to_string(),
            ConfigError::ZeroStepTime => "the step time must be longer than zero".to_string(),
            ConfigError::ZeroTurnTime => "the turn time must be longer than zero".to_string(),
        }
    }

    /// The text of `message`.
    pub open spec fn spec_message(&self) -> Seq<char> {
        match *self {
            ConfigError::MapTooSmall => "the map needs at least 5 cells to a side"@,
            ConfigError::ZeroStepTime => "the step time must be longer than zero"@,
            ConfigError::ZeroTurnTime => "the turn time must be longer than zero"@,
        }
    }
}

} // verus!
