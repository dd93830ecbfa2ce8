use vstd::prelude::*;
use vstd::string::StringExecFns;

use crate::idmap::{proc_path, proc_path_spec};
use crate::nsset::{kind_name, kind_name_spec, NsKind};

verus! {

/// `ns/<kind>`, the handle of a namespace under `/proc/<pid>/`.
pub open spec fn ns_leaf(k: NsKind) -> Seq<char> {
    seq!['n', 's', '/'] + kind_name_spec(k)
}

/// The handle `/proc/<pid>/ns/<kind>` of process `pid`'s namespace of kind `k`.
pub fn ns_handle_path(pid: u32, k: NsKind) -> (r: String)
    ensures
        r@ == proc_path_spec(pid as nat, ns_leaf(k)),
{
    proof {
        reveal_strlit("ns/");
    }
    let mut leaf = String::from_str("ns/");
    leaf.append(kind_name(k));
    proc_path(pid, leaf.as_str())
}

/// `/proc/self/ns/<kind>`
pub open spec fn self_handle_spec(k: NsKind) -> Seq<char> {
    seq!['/', 'p', 'r', 'o', 'c', '/', 's', 'e', 'l', 'f', '/'] + ns_leaf(k)
}

/// The handle of the caller's own namespace of kind `k`.
pub fn self_handle_path(k: NsKind) -> (r: String)
    ensures
        r@ == self_handle_spec(k),
{
    proof {
        reveal_strlit("/proc/self/ns/");
    }
    let mut s = String::from_str("/proc/self/ns/");
    s.append(kind_name(k));
    assert(s@ =~= self_handle_spec(k));
    s
}

/// `EPERM`: the caller lacks the privilege.
pub const EPERM: i32 = 1;
/// `ENOENT`: the handle no longer names a live namespace.
pub const ENOENT: i32 = 2;
/// `EINVAL`: the namespace is not of the kind asked for.
pub const EINVAL: i32 = 22;

/// Why joining a namespace failed.
#[derive(Clone, Copy, Debug, PartialEq, Eq, Structural)]
pub enum JoinError {
    /// The handle refers to no live namespace instance.
    StaleHandle,
    /// The handle is not a namespace of the expected kind.
    KindMismatch,
    /// The caller is not privileged to join.
    NotPermitted,
    /// Any other failure, with its OS error number.
    Other { errno: i32 },
}

pub open spec fn join_error_spec(errno: i32) -> JoinError {
    if errno == ENOENT {
        JoinError::StaleHandle
    } else if errno == EINVAL {
        JoinError::KindMismatch
    } else if errno == EPERM {
        JoinError::NotPermitted
    } else {
        JoinError::Other { errno }
    }
}

/// Classifies the OS error number of a failed open or join.
pub fn join_error_from_errno(errno: i32) -> (r: JoinError)
    ensures
        r == join_error_spec(errno),
{
    if errno == ENOENT {
        JoinError::StaleHandle
    } else if errno == EINVAL {
        JoinError::KindMismatch
    } else if errno == EPERM {
        JoinError::NotPermitted
    } else {
        JoinError::Other { errno }
    }
}

/// What happened last in a join session.
#[derive(Clone, Copy, Debug, PartialEq, Eq, Structural)]
pub enum JoinEvent {
    /// Opening the handle or joining failed with this OS error number.
    JoinFailed { errno: i32 },
    /// The caller is now a member of the namespace.
    Joined,
    /// After the fork, in the original process; `child` is the new member.
    ForkedParent { child: i32 },
    /// After the fork, in the new process.
    ForkedChild,
    /// The forked child terminated with `status`.
    ChildExited { status: i32 },
}

/// What the caller does next in a join session.
#[derive(Clone, Copy, Debug, PartialEq, Eq, Structural)]
pub enum JoinAction {
    /// Report the error and stop; nothing else is tried.
    Fail { error: JoinError },
    /// Fork, so that the original process survives the switch.
    Fork,
    /// Replace the program image with the command.
    Exec,
    /// Wait for the forked child.
    WaitChild { pid: i32 },
    /// Exit with this status.
    Exit { status: i32 },
}

pub open spec fn join_next_spec(fork_mode: bool, event: JoinEvent) -> JoinAction {
    match event {
        JoinEvent::JoinFailed { errno } => JoinAction::Fail { error: join_error_spec(errno) },
        JoinEvent::Joined => if fork_mode { JoinAction::Fork } else { JoinAction::Exec },
        JoinEvent::ForkedParent { child } => JoinAction::WaitChild { pid: child },
        JoinEvent::ForkedChild => JoinAction::Exec,
        JoinEvent::ChildExited { status } => JoinAction::Exit { status },
    }
}

/// The join session: join, then optionally fork, then exec in the member;
/// the original process waits and exits with the member's status.
pub fn join_next(fork_mode: bool, event: JoinEvent) -> (r: JoinAction)
    ensures
        r == join_next_spec(fork_mode, event),
{
    match event {
        JoinEvent::JoinFailed { errno } => JoinAction::Fail { error: join_error_from_errno(errno) },
        JoinEvent::Joined => if fork_mode { JoinAction::Fork } else { JoinAction::Exec },
        JoinEvent::ForkedParent { child } => JoinAction::WaitChild { pid: child },
        JoinEvent::ForkedChild => JoinAction::Exec,
        JoinEvent::ChildExited { status } => JoinAction::Exit { status },
    }
}

/// A failed join ends the session: whatever the error and the mode, the
/// next action neither forks nor execs nor tries again, so the caller's
/// membership is left as it was.
pub proof fn lemma_failed_join_stops(fork_mode: bool, errno: i32)
    ensures
        join_next_spec(fork_mode, JoinEvent::JoinFailed { errno }) is Fail,
        errno == ENOENT ==> join_next_spec(fork_mode, JoinEvent::JoinFailed { errno })
            == (JoinAction::Fail { error: JoinError::StaleHandle }),
{
}

} // verus!
