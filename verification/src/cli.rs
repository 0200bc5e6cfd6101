//! The command line: one positional argument, the target domain.

use crate::report::{Line, Stream};
use vstd::prelude::*;
use vstd::string::StringExecFns;

verus! {

pub const USAGE_HEADLINE: &'static str = "Missing Domain as first parameter";

pub const USAGE_LABEL: &'static str = "Usage:";

pub const USAGE_EXAMPLE: &'static str = "cargo run -- \"example.com\"";

/// The status with which the process ends when the domain is missing.
pub const USAGE_EXIT_STATUS: i32 = 1;

/// Why the command line is refused.
#[derive(Clone, Copy, Debug, PartialEq, Eq, Structural)]
pub enum CliError {
    /// No domain follows the program's name.
    MissingDomain,
}

/// The target domain: the first argument after the program's name.
pub fn domain_argument(args: &Vec<String>) -> (domain: Result<String, CliError>)
    ensures
        args@.len() >= 2 ==> domain is Ok && domain->Ok_0@ == args@[1]@,
        args@.len() < 2 ==> domain == Err::<String, CliError>(CliError::MissingDomain),
{
    if args.len() >= 2 {
        Ok(args[1].clone())
    } else {
        Err(CliError::MissingDomain)
    }
}

/// The usage text, line by line, for the standard output stream.
pub fn usage_lines() -> (lines: Vec<Line>)
    ensures
        lines@.len() == 3,
        lines@[0]@.text == USAGE_HEADLINE@,
        lines@[1]@.text == USAGE_LABEL@,
        lines@[2]@.text == USAGE_EXAMPLE@,
        forall|i: int| 0 <= i < 3 ==> (#[trigger] lines@[i]).stream == Stream::Standard,
{
    let mut lines: Vec<Line> = Vec::new();
    lines.push(Line { stream: Stream::Standard, text: String::from_str(USAGE_HEADLINE) });
    lines.push(Line { stream: Stream::Standard, text: String::from_str(USAGE_LABEL) });
    lines.push(Line { stream: Stream::Standard, text: String::from_str(USAGE_EXAMPLE) });
    lines
}

} // verus!
