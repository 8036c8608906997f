use vstd::prelude::*;
use crate::cadence::LEDDelay;
use crate::coil::{BitRead, ReadOutcome};
use crate::config::{Config, OK_DELAY, WARNING_DELAY};

verus! {

/// What the monitor does after one sample.
#[derive(Clone, Copy, Debug, PartialEq, Eq, Structural)]
pub enum MonitorAction {
    /// Wait this many milliseconds, then sample again.
    Sleep(u64),
    /// The sample could not be read: the monitor ends.
    Stop,
}

/// The hold time that a sensor reading selects.
pub open spec fn selected_delay(config: &Config, crossed: bool) -> u64 {
    if crossed {
        config.warning_delay
    } else {
        config.ok_delay
    }
}

/// The read that starts one monitor iteration: exactly one discrete input.
pub fn sample_request(config: &Config) -> (r: BitRead)
    ensures
        r == (BitRead { address: config.curtain, count: 1 }),
{
    BitRead { address: config.curtain, count: 1 }
}

/// One monitor iteration, given the outcome of its read.
///
/// A crossed curtain (`true`) stores the warning hold time, a clear one the
/// normal hold time, and the monitor then waits for the poll interval. A failed
/// read ends the monitor and leaves the stored hold time as it was.
pub fn check_light_curtain(config: &Config, sample: &ReadOutcome, delay_state: &mut LEDDelay) -> (a:
    MonitorAction)
    requires
        !sample.is_empty_reply(),
    ensures
        sample.failed() ==> a == MonitorAction::Stop && final(delay_state)@ == old(delay_state)@,
        sample.first() matches Some(crossed) ==> a == MonitorAction::Sleep(
            config.monitor_poll_millis,
        ) && final(delay_state)@ == selected_delay(config, crossed),
{
    match sample {
        ReadOutcome::Failed => MonitorAction::Stop,
        ReadOutcome::Bits(bits) => {
            let light_curtain_crossed: bool = bits[0];
            if light_curtain_crossed {
                delay_state.set(config.warning_delay);
            } else {
                delay_state.set(config.ok_delay);
            }
            MonitorAction::Sleep(config.monitor_poll_millis)
        },
    }
}

/// Cadence selection: for either reading, the selected hold time is the warning
/// one exactly when the curtain is crossed, provided the two presets differ.
pub proof fn lemma_cadence_selection(config: &Config, crossed: bool)
    requires
        config.ok_delay != config.warning_delay,
    ensures
        selected_delay(config, crossed) == config.warning_delay <==> crossed,
        selected_delay(config, crossed) == config.ok_delay <==> !crossed,
{
}

/// Cadence selection under the standard configuration: the selected hold time is
/// `WARNING_DELAY` exactly when the curtain is crossed, and `OK_DELAY` otherwise.
pub proof fn lemma_standard_cadence_selection(crossed: bool)
    ensures
        selected_delay(&Config::spec_standard(), crossed) == WARNING_DELAY <==> crossed,
        selected_delay(&Config::spec_standard(), crossed) == OK_DELAY <==> !crossed,
{
}

} // verus!
