use vstd::prelude::*;

use crate::joiner::JoinError;

verus! {

/// A failure of one of the launch operations; each is fatal to the process
/// that meets it.
#[derive(Clone, Copy, Debug, PartialEq, Eq, Structural)]
pub enum LaunchError {
    /// Creating the child or its namespaces failed.
    Spawn { errno: i32 },
    /// Joining an existing namespace failed.
    Join { error: JoinError },
    /// Opening or writing a mapping or setgroups file failed.
    MapWrite { errno: i32 },
    /// A handshake channel operation failed.
    Sync { errno: i32 },
    /// Mounting or unmounting a process-information view failed.
    Mount { errno: i32 },
    /// Replacing the program image failed.
    Exec { errno: i32 },
}

pub open spec fn operation_spec(e: LaunchError) -> Seq<char> {
    match e {
        LaunchError::Spawn { .. } => seq!['c', 'l', 'o', 'n', 'e'],
        LaunchError::Join { .. } => seq!['s', 'e', 't', 'n', 's'],
        LaunchError::MapWrite { .. } => seq!['w', 'r', 'i', 't', 'e'],
        LaunchError::Sync { .. } => seq!['p', 'i', 'p', 'e'],
        LaunchError::Mount { .. } => seq!['m', 'o', 'u', 'n', 't'],
        LaunchError::Exec { .. } => seq!['e', 'x', 'e', 'c', 'v', 'p'],
    }
}

/// Exit status of a process that stops on a launch error.
pub const FAILURE_STATUS: i32 = 1;

impl LaunchError {
    /// The name of the operation that failed, for the diagnostic.
    pub fn operation(&self) -> (r: &'static str)
        ensures
            r@ == operation_spec(*self),
    {
        proof {
            reveal_strlit("clone");
            reveal_strlit("setns");
            reveal_strlit("write");
            reveal_strlit("pipe");
            reveal_strlit("mount");
            reveal_strlit("execvp");
        }
        match self {
            LaunchError::Spawn { .. } => "clone",
            LaunchError::Join { .. } => "setns",
            LaunchError::MapWrite { .. } => "write",
            LaunchError::Sync { .. } => "pipe",
            LaunchError::Mount { .. } => "mount",
            LaunchError::Exec { .. } => "execvp",
        }
    }

    /// The exit status of the failing process: never 0.
    pub fn exit_status(&self) -> (r: i32)
        ensures
            r == FAILURE_STATUS,
            r != 0,
    {
        FAILURE_STATUS
    }
}

} // verus!
