use vstd::prelude::*;

use crate::nsset::NamespaceSet;

verus! {

/// Size of the dedicated stack a spawned child runs on: 1 MiB.
pub const STACK_SIZE: usize = 1024 * 1024;

/// `SIGCHLD`, the signal a spawned child sends its creator when it exits.
pub const SIGCHLD: i32 = 17;

/// Everything the clone call needs to create a child inside new namespaces.
#[derive(Debug)]
pub struct SpawnRequest {
    /// Clone flags for the namespaces to create.
    pub flags: i32,
    /// Signal the child sends its creator on exit.
    pub exit_signal: i32,
    /// The child's own stack, owned by the spawner until the child is
    /// waited on.
    pub stack: Vec<u8>,
}

/// The request that spawns a child into new namespaces of every kind in
/// `set`, and of no other kind.
pub fn spawn_request(set: &NamespaceSet) -> (r: SpawnRequest)
    ensures
        r.flags == set.bits_spec(),
        r.exit_signal == SIGCHLD,
        r.stack@.len() == STACK_SIZE,
        forall|i: int| 0 <= i < r.stack@.len() ==> r.stack@[i] == 0u8,
{
    let stack: Vec<u8> = vec![0u8; STACK_SIZE];
    SpawnRequest { flags: set.clone_bits(), exit_signal: SIGCHLD, stack }
}

} // verus!
