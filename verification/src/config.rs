use vstd::prelude::*;

verus! {

/// Coil address of the cool-white actuator.
pub const CW_COIL: u16 = 512;

/// Coil address of the warm-white actuator.
pub const WW_COIL: u16 = 513;

/// Discrete-input address of the light curtain.
pub const LIGHT_CURTAIN: u16 = 0;

/// Hold time while the zone is clear, in nanoseconds (0.75 s).
pub const OK_DELAY: u64 = 750_000_000;

/// Hold time while the light curtain is crossed, in nanoseconds (0.05 s).
pub const WARNING_DELAY: u64 = 50_000_000;

/// Pause between two samples of the light curtain, in milliseconds.
pub const MONITOR_POLL_MILLIS: u64 = 100;

/// Pause between two ticks of the cycle loop, in milliseconds.
pub const TICK_MILLIS: u64 = 5;

/// Static configuration handed to every component.
///
/// Durations that are compared against elapsed time (`ok_delay`, `warning_delay`)
/// are in nanoseconds; the two pauses are in milliseconds.
#[derive(Clone, Copy, Debug, PartialEq, Eq, Structural)]
pub struct Config {
    pub cool: u16,
    pub warm: u16,
    pub curtain: u16,
    pub ok_delay: u64,
    pub warning_delay: u64,
    pub monitor_poll_millis: u64,
    pub tick_millis: u64,
}

impl Config {
    /// The configuration built from the constants of this module.
    pub open spec fn spec_standard() -> Config {
        Config {
            cool: CW_COIL,
            warm: WW_COIL,
            curtain: LIGHT_CURTAIN,
            ok_delay: OK_DELAY,
            warning_delay: WARNING_DELAY,
            monitor_poll_millis: MONITOR_POLL_MILLIS,
            tick_millis: TICK_MILLIS,
        }
    }

    /// Returns the configuration built from the constants of this module.
    pub fn standard() -> (c: Config)
        ensures
            c == Config::spec_standard(),
    {
        Config {
            cool: CW_COIL,
            warm: WW_COIL,
            curtain: LIGHT_CURTAIN,
            ok_delay: OK_DELAY,
            warning_delay: WARNING_DELAY,
            monitor_poll_millis: MONITOR_POLL_MILLIS,
            tick_millis: TICK_MILLIS,
        }
    }
}

} // verus!
