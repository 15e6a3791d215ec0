//! The dispatch type as it stands for the two commands of the host program:
//! `Nope`, which is the default, and `Panic`.
//!
//! A command does not write to the console itself. It says what is to be
//! written and how it ends; the program that runs it does the rest.

use vstd::prelude::*;
use vstd::string::StringExecFns;

verus! {

/// How a command ends.
#[derive(Clone, Copy, Debug, PartialEq, Eq)]
pub enum Ending {
    /// The command returns to its caller.
    Returns,
    /// The command reaches a place that must not be reached, and the
    /// program ends there.
    Unreachable,
}

/// What running a command comes to: one line for the console, and an ending.
#[derive(Clone, Debug, PartialEq, Eq)]
pub struct Effect {
    pub line: String,
    pub ending: Ending,
}

pub struct EffectView {
    pub line: Seq<char>,
    pub ending: Ending,
}

impl View for Effect {
    type V = EffectView;

    open spec fn view(&self) -> EffectView {
        EffectView { line: self.line@, ending: self.ending }
    }
}

/// The code of `Nope`.
pub const NOPE: u64 = 0x01;

/// The code of `Panic`.
pub const PANIC: u64 = 0xFF;

/// What the handler of `Nope` comes to.
pub open spec fn nope_effect() -> EffectView {
    EffectView { line: "Nope!"@, ending: Ending::Returns }
}

/// What the handler of `Panic` comes to.
pub open spec fn panic_effect() -> EffectView {
    EffectView { line: "Panic!"@, ending: Ending::Unreachable }
}

/// The handler registered as `Nope` under the code `0x01`.
pub fn execute_nope() -> (r: Effect)
    ensures
        r@ == nope_effect(),
{
    Effect { line: String::from_str("Nope!"), ending: Ending::Returns }
}

/// The handler registered as `Panic` under the code `0xFF`.
pub fn panic() -> (r: Effect)
    ensures
        r@ == panic_effect(),
{
    Effect { line: String::from_str("Panic!"), ending: Ending::Unreachable }
}

/// The interface that every command implements.
pub trait WgseCommandInterface {
    /// What running this command comes to.
    spec fn effect(&self) -> EffectView;

    /// Runs the command.
    fn execute(&self) -> (r: Effect)
        ensures
            r@ == self.effect(),
    ;
}

/// The command that does nothing.
#[derive(Clone, Copy, Debug, PartialEq, Eq)]
pub struct Nope;

/// The command that must never be run to its end.
#[derive(Clone, Copy, Debug, PartialEq, Eq)]
pub struct Panic;

impl WgseCommandInterface for Nope {
    open spec fn effect(&self) -> EffectView {
        nope_effect()
    }

    fn execute(&self) -> (r: Effect) {
        execute_nope()
    }
}

impl WgseCommandInterface for Panic {
    open spec fn effect(&self) -> EffectView {
        panic_effect()
    }

    fn execute(&self) -> (r: Effect) {
        panic()
    }
}

/// The closed set of all commands.
#[derive(Clone, Copy, Debug, PartialEq, Eq)]
pub enum WgseCommands {
    Nope(Nope),
    Panic(Panic),
}

impl WgseCommandInterface for WgseCommands {
    /// Dispatch is closed: a variant comes to what its own command comes
    /// to, and to nothing of any other.
    open spec fn effect(&self) -> EffectView {
        match self {
            WgseCommands::Nope(command) => command.effect(),
            WgseCommands::Panic(command) => command.effect(),
        }
    }

    fn execute(&self) -> (r: Effect) {
        match self {
            WgseCommands::Nope(command) => command.execute(),
            WgseCommands::Panic(command) => command.execute(),
        }
    }
}

impl Default for WgseCommands {
    /// The default command is `Nope`.
    fn default() -> (r: WgseCommands)
        ensures
            r == WgseCommands::Nope(Nope),
    {
        WgseCommands::Nope(Nope)
    }
}

} // verus!
