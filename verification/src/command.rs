//! What the command line asks for.

use crate::error::PlnkError;
use vstd::prelude::*;
use vstd::string::StringExecFns;

verus! {

/// What is shown to a user who asks for help, or who gives an argument that
/// is not known.
pub const USAGE: &'static str =
    "Usage: plnk [OPTION]\nBlock or unblock URLs by modifying /etc/hosts\n\nOptions:\n  u,            Restore original hosts file\n  h, help       Show this help message\n  (no args)     Block URLs from config\n";

/// What is shown once the domains are blocked.
pub const BLOCKED: &'static str = "URLs blocked successfully";

/// What is shown once the host file is restored.
pub const UNBLOCKED: &'static str = "URLs unblocked successfully";

/// What the command line asks for.
#[derive(Clone, Debug, PartialEq, Eq)]
pub enum Command {
    /// Block the configured domains.
    Block,
    /// Restore the host file from its copy.
    Unblock,
    /// Show the usage.
    Help,
    /// The argument is none of those known; it is kept as given.
    Unknown(String),
}

impl Command {
    /// Whether this is what `args` asks for. `args` holds the name of the
    /// program and then its arguments, of which only the first counts: none
    /// asks to block, `u` to unblock, `h` or `help` for the usage.
    pub open spec fn is_parse_of(self, args: Seq<Seq<char>>) -> bool {
        if args.len() < 2 {
            self == Command::Block
        } else if args[1] == "u"@ {
            self == Command::Unblock
        } else if args[1] == "h"@ || args[1] == "help"@ {
            self == Command::Help
        } else {
            self matches Command::Unknown(given) && given@ == args[1]
        }
    }

    /// Reads the command off the arguments of the process.
    pub fn parse(args: &[String]) -> (command: Command)
        ensures
            command.is_parse_of(args.deep_view()),
    {
        if args.len() < 2 {
            return Command::Block;
        }
        let given = &args[1];
        if *given == String::from_str("u") {
            Command::Unblock
        } else if *given == String::from_str("h") || *given == String::from_str("help") {
            Command::Help
        } else {
            Command::Unknown(given.clone())
        }
    }

    /// What a process with these arguments is to do, where `writable` tells
    /// whether it may write to the host file. A process that may not is
    /// refused whatever it asks for, before its arguments are looked at.
    pub fn decide(writable: bool, args: &[String]) -> (command: Result<Command, PlnkError>)
        ensures
            match command {
                Ok(command) => writable && command.is_parse_of(args.deep_view()),
                Err(error) => !writable && error == PlnkError::NotRoot,
            },
    {
        if !writable {
            return Err(PlnkError::NotRoot);
        }
        Ok(Command::parse(args))
    }
}

} // verus!
