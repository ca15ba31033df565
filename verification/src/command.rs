//! The command token of one wire request.

use vstd::prelude::*;
use crate::strutil::str_eq;

verus! {

broadcast use vstd::string::group_string_axioms;

/// Why a command token was not recognized.
#[derive(Debug, PartialEq, Eq, Structural)]
pub enum CommandError {
    Unknown,
}

/// A recognized command of the wire protocol.
#[derive(Debug, Clone, Copy, PartialEq, Eq, Structural)]
pub enum Command {
    Add,
    Get,
    Del,
}

impl Command {
    /// Recognizes exactly the case-sensitive tokens `ADD`, `GET` and `DEL`.
    pub fn from_str(s: &str) -> (r: Result<Command, CommandError>)
        ensures
            s@ == "ADD"@ ==> r == Ok::<Command, CommandError>(Command::Add),
            s@ == "GET"@ ==> r == Ok::<Command, CommandError>(Command::Get),
            s@ == "DEL"@ ==> r == Ok::<Command, CommandError>(Command::Del),
            s@ != "ADD"@ && s@ != "GET"@ && s@ != "DEL"@ ==> r == Err::<Command, CommandError>(
                CommandError::Unknown,
            ),
    {
        proof {
            reveal_strlit("ADD");
            reveal_strlit("GET");
            reveal_strlit("DEL");
            assert("ADD"@[0] == 'A');
            assert("GET"@[0] == 'G');
            assert("DEL"@[0] == 'D');
        }
        if str_eq(s, "ADD") {
            Ok(Command::Add)
        } else if str_eq(s, "GET") {
            Ok(Command::Get)
        } else if str_eq(s, "DEL") {
            Ok(Command::Del)
        } else {
            Err(CommandError::Unknown)
        }
    }
}

} // verus!
