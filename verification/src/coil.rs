use vstd::prelude::*;

verus! {

/// Number of coils requested when the state of one coil is read back. Only the
/// first bit of the reply is used.
pub const COIL_READ_COUNT: u16 = 10;

/// Commanded intent for one actuator.
#[derive(Clone, Copy, Debug, PartialEq, Eq, Structural)]
pub enum State {
    On,
    Off,
    Toggle,
}

/// A logical command addressed to one coil.
#[derive(Clone, Copy, Debug, PartialEq, Eq, Structural)]
pub struct CoilCommand {
    pub coil: u16,
    pub state: State,
}

/// A read of `count` consecutive bits starting at `address`.
#[derive(Clone, Copy, Debug, PartialEq, Eq, Structural)]
pub struct BitRead {
    pub address: u16,
    pub count: u16,
}

/// A single-coil write of the wire-level `value` to `address`.
#[derive(Clone, Copy, Debug, PartialEq, Eq, Structural)]
pub struct CoilWrite {
    pub address: u16,
    pub value: bool,
}

/// What came back from a bit read on the bus.
#[derive(Debug)]
pub enum ReadOutcome {
    /// The bits of the reply, first address first.
    Bits(Vec<bool>),
    /// The read failed; nothing is known about the device.
    Failed,
}

impl ReadOutcome {
    /// The first bit of a successful reply, if there is one.
    pub open spec fn first(&self) -> Option<bool> {
        match self {
            ReadOutcome::Bits(bits) => if bits@.len() > 0 {
                Some(bits@[0])
            } else {
                None
            },
            ReadOutcome::Failed => None,
        }
    }

    /// True for a reply that cannot be indexed: it arrived but holds no bit.
    pub open spec fn is_empty_reply(&self) -> bool {
        match self {
            ReadOutcome::Bits(bits) => bits@.len() == 0,
            ReadOutcome::Failed => false,
        }
    }

    /// True when the read itself failed.
    pub open spec fn failed(&self) -> bool {
        match self {
            ReadOutcome::Bits(_) => false,
            ReadOutcome::Failed => true,
        }
    }
}

/// The wire-level value that realises `desired` on a coil whose wire currently
/// reads `current`. The wire is inverted: `true` de-energizes, `false` energizes.
pub open spec fn wire_value(desired: State, current: bool) -> bool {
    match desired {
        State::On => false,
        State::Off => true,
        State::Toggle => !current,
    }
}

/// True when the reply is enough to carry out `desired`: only `Toggle` looks at
/// the first bit.
pub open spec fn reply_suffices(desired: State, outcome: &ReadOutcome) -> bool {
    desired == State::Toggle ==> !outcome.is_empty_reply()
}

/// What `control_coil` writes: nothing after a failed read, else the wire value
/// for `desired` at address `coil`. Of the bits read only the first counts, and
/// only for `Toggle`.
pub open spec fn spec_control_coil(coil: u16, desired: State, outcome: &ReadOutcome) -> Option<
    CoilWrite,
> {
    match outcome {
        ReadOutcome::Failed => None,
        ReadOutcome::Bits(bits) => Some(
            CoilWrite { address: coil, value: wire_value(desired, bits@[0]) },
        ),
    }
}

/// The read that precedes every write to `coil`.
pub fn read_request(coil: u16) -> (r: BitRead)
    ensures
        r == (BitRead { address: coil, count: COIL_READ_COUNT }),
{
    BitRead { address: coil, count: COIL_READ_COUNT }
}

/// Decides the write that follows the read of `coil`.
///
/// A failed read yields no write at all. Otherwise the write goes to `coil` and
/// carries `false` for `On`, `true` for `Off`, and the negation of the first bit
/// read for `Toggle`.
pub fn control_coil(coil: u16, desired_state: State, current_state: &ReadOutcome) -> (w: Option<
    CoilWrite,
>)
    requires
        reply_suffices(desired_state, current_state),
    ensures
        w == spec_control_coil(coil, desired_state, current_state),
        current_state.failed() <==> w is None,
{
    match current_state {
        ReadOutcome::Failed => None,
        ReadOutcome::Bits(bits) => {
            let new_state: bool = match desired_state {
                State::Off => true,
                State::On => false,
                State::Toggle => !bits[0],
            };
            Some(CoilWrite { address: coil, value: new_state })
        },
    }
}

/// Polarity: whatever the wire reads, `On` writes `false`, `Off` writes `true`
/// and `Toggle` writes the opposite of what was read.
pub proof fn lemma_polarity(v: bool)
    ensures
        wire_value(State::On, v) == false,
        wire_value(State::Off, v) == true,
        wire_value(State::Toggle, v) == !v,
        wire_value(State::Toggle, wire_value(State::Toggle, v)) == v,
{
}

} // verus!
