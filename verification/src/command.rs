//! Descriptors for the slash commands the bot registers with the gateway.

use vstd::prelude::*;

verus! {

/// The type of one command option's value.
#[derive(Clone, Copy, Debug, PartialEq, Eq, Structural)]
pub enum OptionKind {
    /// Free text.
    Text,
    /// A yes-or-no flag.
    Flag,
}

/// One option of a slash command.
pub struct CommandOption {
    pub name: String,
    pub description: String,
    pub kind: OptionKind,
    pub required: bool,
    pub autocomplete: bool,
}

/// One slash command as registered with the gateway.
pub struct CommandSpec {
    pub name: String,
    pub description: String,
    pub options: Vec<CommandOption>,
}

} // verus!
