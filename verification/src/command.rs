//! The verbs of the command line and the command that each one names.

use vstd::prelude::*;
use crate::number::{index_of, parse_index};
use crate::text::same_text;

verus! {

/// What an invocation asks for.
#[derive(Clone, Copy, Debug, PartialEq, Eq, Structural)]
pub enum Command {
    /// Show every entry.
    List,
    /// Print the usage.
    Help,
    /// Store a new entry.
    Add,
    /// Remove an entry.
    Delete,
    /// Print the version.
    Version,
    /// Execute an entry.
    Run,
    /// Anything else.
    Unknown,
}

pub open spec fn is_help_verb(verb: Seq<char>) -> bool {
    verb == "help"@ || verb == "-h"@ || verb == "--help"@ || verb == "h"@
}

pub open spec fn is_add_verb(verb: Seq<char>) -> bool {
    verb == "add"@ || verb == "new"@ || verb == "-a"@ || verb == "-n"@ || verb == "a"@
}

pub open spec fn is_delete_verb(verb: Seq<char>) -> bool {
    verb == "delete"@ || verb == "remove"@ || verb == "-d"@ || verb == "-r"@ || verb == "d"@
        || verb == "r"@ || verb == "del"@
}

pub open spec fn is_version_verb(verb: Seq<char>) -> bool {
    verb == "version"@ || verb == "-v"@ || verb == "--version"@ || verb == "v"@
}

/// The command that a verb names: one of the four families of words, else
/// `Run` where the verb reads as an index, else `Unknown`.
pub open spec fn verb_command(verb: Seq<char>) -> Command {
    if is_help_verb(verb) {
        Command::Help
    } else if is_add_verb(verb) {
        Command::Add
    } else if is_delete_verb(verb) {
        Command::Delete
    } else if is_version_verb(verb) {
        Command::Version
    } else if index_of(verb) is Some {
        Command::Run
    } else {
        Command::Unknown
    }
}

/// The command of a whole argument list, the program's own name first:
/// `List` where nothing follows the name, else what the verb says.
pub open spec fn command_of(args: Seq<Seq<char>>) -> Command {
    if args.len() < 2 {
        Command::List
    } else {
        verb_command(args[1])
    }
}

fn is_help(verb: &str) -> (r: bool)
    ensures
        r == is_help_verb(verb@),
{
    same_text(verb, "help") || same_text(verb, "-h") || same_text(verb, "--help") || same_text(
        verb,
        "h",
    )
}

fn is_add(verb: &str) -> (r: bool)
    ensures
        r == is_add_verb(verb@),
{
    same_text(verb, "add") || same_text(verb, "new") || same_text(verb, "-a") || same_text(
        verb,
        "-n",
    ) || same_text(verb, "a")
}

fn is_delete(verb: &str) -> (r: bool)
    ensures
        r == is_delete_verb(verb@),
{
    same_text(verb, "delete") || same_text(verb, "remove") || same_text(verb, "-d") || same_text(
        verb,
        "-r",
    ) || same_text(verb, "d") || same_text(verb, "r") || same_text(verb, "del")
}

fn is_version(verb: &str) -> (r: bool)
    ensures
        r == is_version_verb(verb@),
{
    same_text(verb, "version") || same_text(verb, "-v") || same_text(verb, "--version")
        || same_text(verb, "v")
}

/// Reads one verb.
pub fn read_verb(verb: &str) -> (r: Command)
    ensures
        r == verb_command(verb@),
{
    if is_help(verb) {
        Command::Help
    } else if is_add(verb) {
        Command::Add
    } else if is_delete(verb) {
        Command::Delete
    } else if is_version(verb) {
        Command::Version
    } else if parse_index(verb).is_some() {
        Command::Run
    } else {
        Command::Unknown
    }
}

/// Reads the process arguments, the program's own name first.
pub fn dispatch(args: &Vec<String>) -> (r: Command)
    ensures
        r == command_of(args.deep_view()),
{
    if args.len() < 2 {
        Command::List
    } else {
        read_verb(args[1].as_str())
    }
}

} // verus!
