//! Numbered shell snippets, kept one to a file in a directory of the user:
//! what each command line means, which file it reads, writes or removes, and
//! what it prints. The file system and the shell stay with the caller; see
//! `session`.

pub mod command;
pub mod directory;
pub mod entry;
pub mod message;
pub mod number;
pub mod path;
pub mod protocol;
pub mod session;
pub mod shell;
pub mod text;
