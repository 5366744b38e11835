use vstd::prelude::*;
use vstd::string::*;

verus! {

/// The commands the recipient may send.
#[derive(Debug, Clone, Copy, PartialEq, Eq, Structural)]
pub enum Command {
    /// List the available commands.
    Help,
    /// Run an evaluation now and reply with its report.
    Fetch,
}

/// What answering a command takes.
#[derive(Debug, Clone, Copy, PartialEq, Eq, Structural)]
pub enum CommandAction {
    /// Reply with the list of commands.
    ShowHelp,
    /// Run the evaluation and reply with its report.
    RunEvaluation,
}

/// The name shown for each command.
pub open spec fn command_name(c: Command) -> Seq<char> {
    match c {
        Command::Help => "Help"@,
        Command::Fetch => "Fetch"@,
    }
}

/// The action each command calls for.
pub open spec fn action_of(c: Command) -> CommandAction {
    match c {
        Command::Help => CommandAction::ShowHelp,
        Command::Fetch => CommandAction::RunEvaluation,
    }
}

impl Command {
    /// The command's name as shown to people.
    pub fn to_text(&self) -> (r: String)
        ensures
            r@ == command_name(*self),
    {
        match self {
            Command::Help => String::from_str("Help"),
            Command::Fetch => String::from_str("Fetch"),
        }
    }

    /// The dispatch table: every command has exactly one action.
    pub fn action(&self) -> (r: CommandAction)
        ensures
            r == action_of(*self),
    {
        match self {
            Command::Help => CommandAction::ShowHelp,
            Command::Fetch => CommandAction::RunEvaluation,
        }
    }
}

} // verus!
