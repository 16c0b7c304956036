//! The command words of the command-line surface.

use vstd::prelude::*;

use crate::text::str_eq;

verus! {

/// A lifecycle command the dispatcher can be asked to perform.
#[derive(Debug, Clone, Copy, PartialEq, Eq, Structural)]
pub enum CliCommand {
    Run,
    Enable,
    Disable,
    Status,
    Kill,
}

/// Which command a word names, if any.
pub open spec fn spec_parse_command(s: Seq<char>) -> Option<CliCommand> {
    if s == "run"@ {
        Some(CliCommand::Run)
    } else if s == "enable"@ {
        Some(CliCommand::Enable)
    } else if s == "disable"@ {
        Some(CliCommand::Disable)
    } else if s == "status"@ {
        Some(CliCommand::Status)
    } else if s == "kill"@ {
        Some(CliCommand::Kill)
    } else {
        None
    }
}

/// Maps a command word onto a lifecycle command; any other word is a usage
/// error the caller reports.
pub fn parse_command(s: &str) -> (r: Option<CliCommand>)
    ensures
        r == spec_parse_command(s@),
{
    if str_eq(s, "run") {
        Some(CliCommand::Run)
    } else if str_eq(s, "enable") {
        Some(CliCommand::Enable)
    } else if str_eq(s, "disable") {
        Some(CliCommand::Disable)
    } else if str_eq(s, "status") {
        Some(CliCommand::Status)
    } else if str_eq(s, "kill") {
        Some(CliCommand::Kill)
    } else {
        None
    }
}

} // verus!
