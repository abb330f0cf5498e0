//! The shell that runs an entry.

use vstd::prelude::*;

verus! {

/// A command interpreter that takes a line as one argument.
#[derive(Clone, Copy, Debug, PartialEq, Eq, Structural)]
pub enum Shell {
    /// `sh -c`, everywhere but on Windows.
    Sh,
    /// `cmd /C`, on Windows.
    Cmd,
}

/// The shell of a host.
pub open spec fn host_shell(windows: bool) -> Shell {
    if windows {
        Shell::Cmd
    } else {
        Shell::Sh
    }
}

/// The program to start.
pub open spec fn program_text(shell: Shell) -> Seq<char> {
    match shell {
        Shell::Sh => "sh"@,
        Shell::Cmd => "cmd"@,
    }
}

/// The argument that stands before the line.
pub open spec fn flag_text(shell: Shell) -> Seq<char> {
    match shell {
        Shell::Sh => "-c"@,
        Shell::Cmd => "/C"@,
    }
}

impl Shell {
    /// The shell of this host, given whether it is Windows.
    pub fn of_host(windows: bool) -> (r: Shell)
        ensures
            r == host_shell(windows),
    {
        if windows {
            Shell::Cmd
        } else {
            Shell::Sh
        }
    }

    pub fn program(self) -> (r: &'static str)
        ensures
            r@ == program_text(self),
    {
        match self {
            Shell::Sh => "sh",
            Shell::Cmd => "cmd",
        }
    }

    pub fn flag(self) -> (r: &'static str)
        ensures
            r@ == flag_text(self),
    {
        match self {
            Shell::Sh => "-c",
            Shell::Cmd => "/C",
        }
    }
}

} // verus!
