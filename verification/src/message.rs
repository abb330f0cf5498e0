//! What the program says: every line it can print, as a text over its
//! parameters.

use vstd::prelude::*;
use crate::number::{decimal, decimal_text};

verus! {

/// The one line of `version`.
pub open spec fn version_text() -> Seq<char> {
    "pls v1.0.0"@
}

/// The lines of `help`.
pub open spec fn help_text() -> Seq<Seq<char>> {
    seq![
        "Commands & Usage:"@,
        "> pls              List all pls"@,
        "> pls [X]          execute pls"@,
        "> pls add <C>      Add pls"@,
        "> pls delete <X>   Delete pls"@,
    ]
}

/// The line for a command that is not understood: the verb that was read and
/// what followed it.
pub open spec fn unknown_command_text(command: Seq<char>, args: Seq<char>) -> Seq<char> {
    "Unknown command: 'pls "@ + command + " "@ + args + "'. More help: 'pls help'"@
}

/// The line of `add` without words.
pub open spec fn add_example_text() -> Seq<char> {
    "Example: 'pls add cd /home/user/projects'"@
}

/// The line of `delete` without exactly one argument.
pub open spec fn delete_example_text() -> Seq<char> {
    "Example: 'pls delete 2'"@
}

/// The line of `list` where there is no entry.
pub open spec fn empty_text() -> Seq<char> {
    "Empty"@
}

/// The line for a display index that no entry has.
pub open spec fn not_found_text(index: nat) -> Seq<char> {
    "Not found: ["@ + decimal(index) + "]"@
}

/// The line after the entry at a display index was removed.
pub open spec fn deleted_text(index: nat) -> Seq<char> {
    "Deleted: ["@ + decimal(index) + "]"@
}

/// The line after an entry was stored.
pub open spec fn added_text(entry: Seq<char>) -> Seq<char> {
    "Added: \""@ + entry + "\""@
}

/// The line after a file that names no index was removed.
pub open spec fn removed_invalid_text(name: Seq<char>) -> Seq<char> {
    "Removed invalid pls: '"@ + name + "'. pls not modify files by yourself."@
}

/// The line that shows one entry: its display index in brackets, a space and
/// its content.
pub open spec fn list_line_text(position: nat, content: Seq<char>) -> Seq<char> {
    "["@ + decimal(position) + "] "@ + content
}

/// The version line.
pub fn version_line() -> (r: String)
    ensures
        r@ == version_text(),
{
    "pls v1.0.0".to_owned()
}

/// The usage, line by line.
pub fn help_lines() -> (r: Vec<String>)
    ensures
        r.deep_view() == help_text(),
{
    let mut lines: Vec<String> = Vec::new();
    lines.push("Commands & Usage:".to_owned());
    lines.push("> pls              List all pls".to_owned());
    lines.push("> pls [X]          execute pls".to_owned());
    lines.push("> pls add <C>      Add pls".to_owned());
    lines.push("> pls delete <X>   Delete pls".to_owned());
    assert(lines.deep_view() =~= help_text());
    lines
}

/// The line for a command that is not understood.
pub fn unknown_command(command: &str, args: &str) -> (r: String)
    ensures
        r@ == unknown_command_text(command@, args@),
{
    let mut line = "Unknown command: 'pls ".to_owned();
    line.append(command);
    line.append(" ");
    line.append(args);
    line.append("'. More help: 'pls help'");
    line
}

/// The line that shows how to add.
pub fn add_example() -> (r: String)
    ensures
        r@ == add_example_text(),
{
    "Example: 'pls add cd /home/user/projects'".to_owned()
}

/// The line that shows how to delete.
pub fn delete_example() -> (r: String)
    ensures
        r@ == delete_example_text(),
{
    "Example: 'pls delete 2'".to_owned()
}

/// The line for a directory without entries.
pub fn empty() -> (r: String)
    ensures
        r@ == empty_text(),
{
    "Empty".to_owned()
}

/// The line for a display index that no entry has.
pub fn not_found(index: usize) -> (r: String)
    ensures
        r@ == not_found_text(index as nat),
{
    let mut line = "Not found: [".to_owned();
    line.append(decimal_text(index as u128).as_str());
    line.append("]");
    line
}

/// The line after a removal.
pub fn deleted(index: usize) -> (r: String)
    ensures
        r@ == deleted_text(index as nat),
{
    let mut line = "Deleted: [".to_owned();
    line.append(decimal_text(index as u128).as_str());
    line.append("]");
    line
}

/// The line after an entry was stored.
pub fn added(entry: &str) -> (r: String)
    ensures
        r@ == added_text(entry@),
{
    let mut line = "Added: \"".to_owned();
    line.append(entry);
    line.append("\"");
    line
}

/// The line after a file that names no index was removed.
pub fn removed_invalid(name: &str) -> (r: String)
    ensures
        r@ == removed_invalid_text(name@),
{
    let mut line = "Removed invalid pls: '".to_owned();
    line.append(name);
    line.append("'. pls not modify files by yourself.");
    line
}

/// The line that shows one entry.
pub fn list_line(position: usize, content: &str) -> (r: String)
    ensures
        r@ == list_line_text(position as nat, content@),
{
    let mut line = "[".to_owned();
    line.append(decimal_text(position as u128).as_str());
    line.append("] ");
    line.append(content);
    line
}

} // verus!
