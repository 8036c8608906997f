use vstd::prelude::*;
use crate::coil::{CoilCommand, State};
use crate::config::Config;

verus! {

/// An operator command.
#[derive(Clone, Copy, Debug, PartialEq, Eq, Structural)]
pub enum Command {
    /// `cw`: toggle the cool coil.
    CoolWhite,
    /// `ww`: toggle the warm coil.
    WarmWhite,
    /// `on`: switch both coils on.
    On,
    /// `off`: switch both coils off.
    Off,
    /// `cycle`: run the cycle controller.
    Cycle,
    /// `q`: close the session and leave.
    Quit,
    /// Anything else.
    Unknown,
}

/// What the dispatcher does for one command.
#[derive(Debug)]
pub enum Dispatch {
    /// Carry out these coil commands in order, close the session, prompt again.
    Drive(Vec<CoilCommand>),
    /// Hand the session to the cycle controller.
    Cycle,
    /// Close the session and leave.
    Quit,
    /// Report the unrecognized input, close the session, prompt again.
    Unrecognized,
}

/// The text that `str::trim` returns for the text `s`.
pub uninterp spec fn spec_trim(s: Seq<char>) -> Seq<char>;

/// The text that `str::to_lowercase` returns for the text `s`.
pub uninterp spec fn spec_to_lowercase(s: Seq<char>) -> Seq<char>;

/// The normal form of an input line: trimmed, then lowercased.
pub open spec fn spec_normalize(line: Seq<char>) -> Seq<char> {
    spec_to_lowercase(spec_trim(line))
}

/// Calls `str::trim`, which returns the slice left after leading and trailing
/// Unicode whitespace is removed. The contract only names that result.
#[verifier::external_body]
fn trimmed<'a>(s: &'a str) -> (r: &'a str)
    ensures
        r@ == spec_trim(s@),
{
    s.trim()
}

/// Calls `str::to_lowercase`, which returns the Unicode lowercase form of the
/// text as a new `String`. The contract only names that result.
#[verifier::external_body]
fn lowercased(s: &str) -> (r: String)
    ensures
        r@ == spec_to_lowercase(s@),
{
    s.to_lowercase()
}

/// The command that a normalized token stands for.
pub open spec fn spec_classify(token: Seq<char>) -> Command {
    if token == "cw"@ {
        Command::CoolWhite
    } else if token == "ww"@ {
        Command::WarmWhite
    } else if token == "on"@ {
        Command::On
    } else if token == "off"@ {
        Command::Off
    } else if token == "cycle"@ {
        Command::Cycle
    } else if token == "q"@ {
        Command::Quit
    } else {
        Command::Unknown
    }
}

/// The coil commands that a command stands for, in the order in which they are
/// carried out. Commands that drive no coil directly give none.
pub open spec fn spec_plan(command: Command, config: &Config) -> Seq<CoilCommand> {
    match command {
        Command::CoolWhite => seq![CoilCommand { coil: config.cool, state: State::Toggle }],
        Command::WarmWhite => seq![CoilCommand { coil: config.warm, state: State::Toggle }],
        Command::On => seq![
            CoilCommand { coil: config.cool, state: State::On },
            CoilCommand { coil: config.warm, state: State::On },
        ],
        Command::Off => seq![
            CoilCommand { coil: config.cool, state: State::Off },
            CoilCommand { coil: config.warm, state: State::Off },
        ],
        _ => Seq::empty(),
    }
}

/// True for the commands that drive coils directly.
pub open spec fn drives_coils(command: Command) -> bool {
    command == Command::CoolWhite || command == Command::WarmWhite || command == Command::On
        || command == Command::Off
}

/// Brings an input line into normal form: surrounding whitespace removed, then
/// lowercased.
pub fn normalize(line: &str) -> (token: String)
    ensures
        token@ == spec_normalize(line@),
{
    lowercased(trimmed(line))
}

/// Maps a normalized token to its command; a token that is none of `cw`, `ww`,
/// `on`, `off`, `cycle`, `q` is `Unknown`.
pub fn classify(token: &str) -> (c: Command)
    ensures
        c == spec_classify(token@),
{
    let t: String = token.to_owned();
    if t == "cw".to_owned() {
        Command::CoolWhite
    } else if t == "ww".to_owned() {
        Command::WarmWhite
    } else if t == "on".to_owned() {
        Command::On
    } else if t == "off".to_owned() {
        Command::Off
    } else if t == "cycle".to_owned() {
        Command::Cycle
    } else if t == "q".to_owned() {
        Command::Quit
    } else {
        Command::Unknown
    }
}

/// Reads a command from a raw input line.
pub fn parse_command(line: &str) -> (c: Command)
    ensures
        c == spec_classify(spec_normalize(line@)),
{
    let token: String = normalize(line);
    classify(token.as_str())
}

/// Decides what the dispatcher does for `command`.
pub fn dispatch(command: Command, config: &Config) -> (d: Dispatch)
    ensures
        match d {
            Dispatch::Drive(cmds) => drives_coils(command) && cmds@ == spec_plan(command, config),
            Dispatch::Cycle => command == Command::Cycle,
            Dispatch::Quit => command == Command::Quit,
            Dispatch::Unrecognized => command == Command::Unknown,
        },
{
    match command {
        Command::CoolWhite => {
            let mut cmds: Vec<CoilCommand> = Vec::new();
            cmds.push(CoilCommand { coil: config.cool, state: State::Toggle });
            assert(cmds@ =~= spec_plan(command, config));
            Dispatch::Drive(cmds)
        },
        Command::WarmWhite => {
            let mut cmds: Vec<CoilCommand> = Vec::new();
            cmds.push(CoilCommand { coil: config.warm, state: State::Toggle });
            assert(cmds@ =~= spec_plan(command, config));
            Dispatch::Drive(cmds)
        },
        Command::On => {
            let mut cmds: Vec<CoilCommand> = Vec::new();
            cmds.push(CoilCommand { coil: config.cool, state: State::On });
            cmds.push(CoilCommand { coil: config.warm, state: State::On });
            assert(cmds@ =~= spec_plan(command, config));
            Dispatch::Drive(cmds)
        },
        Command::Off => {
            let mut cmds: Vec<CoilCommand> = Vec::new();
            cmds.push(CoilCommand { coil: config.cool, state: State::Off });
            cmds.push(CoilCommand { coil: config.warm, state: State::Off });
            assert(cmds@ =~= spec_plan(command, config));
            Dispatch::Drive(cmds)
        },
        Command::Cycle => Dispatch::Cycle,
        Command::Quit => Dispatch::Quit,
        Command::Unknown => Dispatch::Unrecognized,
    }
}

} // verus!
