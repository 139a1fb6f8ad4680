//! The command under which the inquiry is offered.

use vstd::prelude::*;
use vstd::string::*;

verus! {

/// The kind of value that an option takes.
#[derive(Clone, Copy, Debug, PartialEq, Eq, Structural)]
pub enum OptionKind {
    /// Free text.
    Text,
}

/// One option of a command.
#[derive(Clone, Debug, PartialEq, Eq)]
pub struct CommandOption {
    pub name: String,
    pub description: String,
    pub kind: OptionKind,
    pub required: bool,
}

/// A command as a host lists it: its name, what it is for, and its option.
#[derive(Clone, Debug, PartialEq, Eq)]
pub struct Command {
    pub name: String,
    pub description: String,
    pub option: CommandOption,
}

/// The inquiry command: `rer`, with the line as its one required option.
pub fn register() -> (command: Command)
    ensures
        command.name@ == "rer"@,
        command.description@ == "Bison futé"@,
        command.option.name@ == "rer"@,
        command.option.description@ == "Ligne de RER"@,
        command.option.kind == OptionKind::Text,
        command.option.required,
{
    Command {
        name: String::from_str("rer"),
        description: String::from_str("Bison futé"),
        option: CommandOption {
            name: String::from_str("rer"),
            description: String::from_str("Ligne de RER"),
            kind: OptionKind::Text,
            required: true,
        },
    }
}

} // verus!
