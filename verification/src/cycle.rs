use vstd::prelude::*;
use crate::coil::{CoilCommand, State};
use crate::config::Config;

verus! {

/// Loop-local state of the cycle controller: which coil was switched last and
/// when, on a monotonic clock counted in nanoseconds.
#[derive(Clone, Copy, Debug, PartialEq, Eq, Structural)]
pub struct CycleState {
    pub current_coil: u16,
    pub last_toggle_time: u64,
}

/// What one tick of the cycle controller asks for.
#[derive(Clone, Copy, Debug, PartialEq, Eq, Structural)]
pub struct CycleStep {
    /// The coil command to carry out before sleeping, if the hold time is over.
    pub command: Option<CoilCommand>,
    /// How long to sleep before the next tick, in milliseconds.
    pub sleep_millis: u64,
}

/// Time elapsed at `now` since `last`; a clock reading that lies before `last`
/// counts as no time at all.
pub open spec fn elapsed(last: int, now: int) -> int {
    if now >= last {
        now - last
    } else {
        0
    }
}

/// True when the hold that began at `last` is over at `now` under hold time
/// `delay`. An exactly elapsed hold is over.
pub open spec fn due(last: int, now: int, delay: int) -> bool {
    elapsed(last, now) >= delay
}

/// The coil that takes over from `current`.
pub open spec fn other_coil(config: &Config, current: u16) -> u16 {
    if current == config.cool {
        config.warm
    } else {
        config.cool
    }
}

/// The state after a tick at `now` under hold time `delay`.
pub open spec fn next_state(config: &Config, s: CycleState, now: u64, delay: u64) -> CycleState {
    if due(s.last_toggle_time as int, now as int, delay as int) {
        CycleState { current_coil: other_coil(config, s.current_coil), last_toggle_time: now }
    } else {
        s
    }
}

/// The coil command issued by a tick at `now` under hold time `delay`.
pub open spec fn tick_command(config: &Config, s: CycleState, now: u64, delay: u64) -> Option<
    CoilCommand,
> {
    if due(s.last_toggle_time as int, now as int, delay as int) {
        Some(CoilCommand { coil: other_coil(config, s.current_coil), state: State::Toggle })
    } else {
        None
    }
}

/// The two commands that put the pair into its initial state: cool on, warm off.
pub open spec fn spec_initial_commands(config: &Config) -> Seq<CoilCommand> {
    seq![
        CoilCommand { coil: config.cool, state: State::On },
        CoilCommand { coil: config.warm, state: State::Off },
    ]
}

/// The commands to carry out, in order, before the first tick.
pub fn initial_commands(config: &Config) -> (cmds: Vec<CoilCommand>)
    ensures
        cmds@ == spec_initial_commands(config),
{
    let mut cmds: Vec<CoilCommand> = Vec::new();
    cmds.push(CoilCommand { coil: config.cool, state: State::On });
    cmds.push(CoilCommand { coil: config.warm, state: State::Off });
    assert(cmds@ =~= spec_initial_commands(config));
    cmds
}

impl CycleState {
    /// The state once the initial commands are done at time `now`: the cool coil
    /// is the active one and its hold starts at `now`.
    pub fn start(config: &Config, now: u64) -> (s: CycleState)
        ensures
            s == (CycleState { current_coil: config.cool, last_toggle_time: now }),
    {
        CycleState { current_coil: config.cool, last_toggle_time: now }
    }
}

/// One tick of the cycle controller at clock reading `now`, under the hold time
/// `delay` read for this tick.
///
/// If the time elapsed since the last switch has reached `delay`, the other coil
/// becomes the active one, a `Toggle` for it is returned and the hold restarts at
/// `now`. Otherwise nothing changes. Either way the controller then sleeps for
/// the tick interval.
pub fn cycle_leds_continuous(config: &Config, state: &mut CycleState, now: u64, delay: u64) -> (step:
    CycleStep)
    ensures
        *final(state) == next_state(config, *old(state), now, delay),
        step.command == tick_command(config, *old(state), now, delay),
        step.sleep_millis == config.tick_millis,
{
    let elapsed_nanos: u64 = if now >= state.last_toggle_time {
        now - state.last_toggle_time
    } else {
        0
    };
    let mut command: Option<CoilCommand> = None;
    if elapsed_nanos >= delay {
        if state.current_coil == config.cool {
            state.current_coil = config.warm;
        } else {
            state.current_coil = config.cool;
        }
        command = Some(CoilCommand { coil: state.current_coil, state: State::Toggle });
        state.last_toggle_time = now;
    }
    CycleStep { command, sleep_millis: config.tick_millis }
}

/// The clock readings, among `ticks` taken in order, at which the controller
/// in state `s` issues a command while the hold time stays `delay`.
pub open spec fn toggle_times(config: &Config, s: CycleState, ticks: Seq<u64>, delay: u64) -> Seq<
    u64,
>
    decreases ticks.len(),
{
    if ticks.len() == 0 {
        Seq::empty()
    } else {
        let rest = toggle_times(
            config,
            next_state(config, s, ticks[0], delay),
            ticks.drop_first(),
            delay,
        );
        if tick_command(config, s, ticks[0], delay) is Some {
            seq![ticks[0]] + rest
        } else {
            rest
        }
    }
}

/// True when the ticks follow `prev` and one another in order, each at most
/// `step` after its predecessor.
pub open spec fn paced(prev: u64, ticks: Seq<u64>, step: u64) -> bool
    decreases ticks.len(),
{
    ticks.len() == 0 || (prev <= ticks[0] <= prev + step && paced(
        ticks[0],
        ticks.drop_first(),
        step,
    ))
}

/// True when every time in `times` follows its predecessor (`last` for the
/// first) by at least `lo` and at most `hi`.
pub open spec fn gaps_within(last: u64, times: Seq<u64>, lo: int, hi: int) -> bool
    decreases times.len(),
{
    times.len() == 0 || (lo <= times[0] - last <= hi && gaps_within(
        times[0],
        times.drop_first(),
        lo,
        hi,
    ))
}

/// Toggle timing: under a constant hold time `delay`, with ticks at most `step`
/// apart, every gap between consecutive switches lies in `[delay, delay + step]`,
/// however many switches there are.
///
/// `prev` is the latest clock reading taken so far: the start of the hold itself
/// or a later tick at which the hold was not yet over.
pub proof fn lemma_toggle_timing(
    config: &Config,
    s: CycleState,
    prev: u64,
    ticks: Seq<u64>,
    delay: u64,
    step: u64,
)
    requires
        s.last_toggle_time <= prev <= s.last_toggle_time + delay,
        paced(prev, ticks, step),
    ensures
        gaps_within(
            s.last_toggle_time,
            toggle_times(config, s, ticks, delay),
            delay as int,
            delay + step,
        ),
    decreases ticks.len(),
{
    if ticks.len() > 0 {
        let t = ticks[0];
        let rest = ticks.drop_first();
        let next = next_state(config, s, t, delay);
        let tail = toggle_times(config, next, rest, delay);
        if tick_command(config, s, t, delay) is Some {
            lemma_toggle_timing(config, next, t, rest, delay, step);
            let times = toggle_times(config, s, ticks, delay);
            assert(times == seq![t] + tail);
            assert(times[0] == t);
            assert(times.drop_first() =~= tail);
        } else {
            lemma_toggle_timing(config, s, t, rest, delay, step);
        }
    }
}

/// Alternation: with two distinct coils and one of them active, a switch goes to
/// the coil that is not active, and two switches in a row come back to the first.
pub proof fn lemma_alternation(config: &Config, s: CycleState, now: u64, delay: u64)
    requires
        config.cool != config.warm,
        s.current_coil == config.cool || s.current_coil == config.warm,
        tick_command(config, s, now, delay) is Some,
    ensures
        next_state(config, s, now, delay).current_coil != s.current_coil,
        next_state(config, s, now, delay).current_coil == config.cool || next_state(
            config,
            s,
            now,
            delay,
        ).current_coil == config.warm,
        other_coil(config, other_coil(config, s.current_coil)) == s.current_coil,
{
}

/// Cadence responsiveness: when the hold time is lowered during a hold, so that
/// the time elapsed is short of the old value but has reached the new one, the
/// tick that reads the new value switches at once, where the old value would
/// have held on.
pub proof fn lemma_lowered_cadence(
    config: &Config,
    s: CycleState,
    now: u64,
    old_delay: u64,
    new_delay: u64,
)
    requires
        elapsed(s.last_toggle_time as int, now as int) < old_delay,
        elapsed(s.last_toggle_time as int, now as int) >= new_delay,
    ensures
        tick_command(config, s, now, old_delay) is None,
        next_state(config, s, now, old_delay) == s,
        tick_command(config, s, now, new_delay) == Some(
            CoilCommand { coil: other_coil(config, s.current_coil), state: State::Toggle },
        ),
        next_state(config, s, now, new_delay).last_toggle_time == now,
{
}

} // verus!
