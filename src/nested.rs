use vstd::prelude::*;
use vstd::string::StringExecFns;

use crate::text::{append_decimal, decimal, lemma_decimal_injective};

verus! {

/// `/tmp/proc`, the base of every level's mount point.
pub open spec fn mount_base() -> Seq<char> {
    seq!['/', 't', 'm', 'p', '/', 'p', 'r', 'o', 'c']
}

/// The mount point of the process-information view of level `level`.
pub open spec fn mount_point_spec(level: nat) -> Seq<char> {
    mount_base() + decimal(level)
}

/// Builds the mount point `/tmp/proc<level>`.
pub fn mount_point(level: u8) -> (r: String)
    ensures
        r@ == mount_point_spec(level as nat),
{
    proof {
        reveal_strlit("/tmp/proc");
    }
    let mut s = String::from_str("/tmp/proc");
    append_decimal(&mut s, level as u32);
    s
}

/// What a level does once its mount step is over.
#[derive(Clone, Copy, Debug, PartialEq, Eq, Structural)]
pub enum LevelNext {
    /// Spawn a child into a new PID namespace that runs level `level`, and
    /// wait for it.
    SpawnNested { level: u8 },
    /// Replace the program image with the placeholder program.
    ExecPlaceholder,
}

/// The work of one level of the nested launcher.
#[derive(Debug)]
pub struct LevelPlan {
    /// Where to mount a fresh process-information view, if anywhere.
    pub mount_point: Option<String>,
    pub next: LevelNext,
}

/// The mount step of a level: every level mounts but the first call.
pub open spec fn level_mount_spec(level: nat, first_call: bool) -> Option<Seq<char>> {
    if first_call { None } else { Some(mount_point_spec(level)) }
}

/// The step after the mount: recurse while levels remain, else the leaf.
pub open spec fn level_next_spec(level: u8) -> LevelNext {
    if level > 0 { LevelNext::SpawnNested { level: (level - 1) as u8 } } else { LevelNext::ExecPlaceholder }
}

/// The work of level `level`; `first_call` is set only for the invocation
/// that started the chain, which is not inside a new namespace yet.
pub fn level_plan(level: u8, first_call: bool) -> (r: LevelPlan)
    ensures
        match r.mount_point {
            Some(m) => level_mount_spec(level as nat, first_call) == Some(m@),
            None => level_mount_spec(level as nat, first_call) is None,
        },
        r.next == level_next_spec(level),
{
    let mount = if first_call { None } else { Some(mount_point(level)) };
    let next = if level > 0 { LevelNext::SpawnNested { level: level - 1 } } else { LevelNext::ExecPlaceholder };
    LevelPlan { mount_point: mount, next }
}

/// What a level does after its nested child has terminated.
#[derive(Debug)]
pub struct LevelFinish {
    /// The mount point to unmount and remove, if this level mounted one.
    pub unmount: Option<String>,
    /// The status this level exits with.
    pub status: i32,
}

/// The unwinding step of a level whose nested child ended with
/// `child_status`: the level removes the view it mounted, if any, and passes
/// the child's status on unchanged.
pub fn level_finish(level: u8, first_call: bool, child_status: i32) -> (r: LevelFinish)
    ensures
        match r.unmount {
            Some(m) => level_mount_spec(level as nat, first_call) == Some(m@),
            None => level_mount_spec(level as nat, first_call) is None,
        },
        r.status == child_status,
{
    let unmount = if first_call { None } else { Some(mount_point(level)) };
    LevelFinish { unmount, status: child_status }
}

/// The mount points removed while a chain that starts at `level` unwinds,
/// innermost first. The leaf never unwinds: its image is replaced.
pub open spec fn chain_unmounts(level: u8, first_call: bool) -> Seq<Seq<char>>
    decreases level,
{
    let here = match level_mount_spec(level as nat, first_call) {
        Some(m) => seq![m],
        None => Seq::empty(),
    };
    match level_next_spec(level) {
        LevelNext::SpawnNested { level: l } => if l < level { chain_unmounts(l, false) + here } else { here },
        LevelNext::ExecPlaceholder => Seq::empty(),
    }
}

/// The program that the innermost level runs: `sleep 1000`.
pub fn placeholder_argv() -> (r: Vec<String>)
    ensures
        r@.len() == 2,
        r@[0]@ == seq!['s', 'l', 'e', 'e', 'p'],
        r@[1]@ == seq!['1', '0', '0', '0'],
{
    proof {
        reveal_strlit("sleep");
        reveal_strlit("1000");
    }
    vec![String::from_str("sleep"), String::from_str("1000")]
}

/// The mount points made by a chain that starts at `level`, outermost first.
pub open spec fn chain_mounts(level: u8, first_call: bool) -> Seq<Seq<char>>
    decreases level,
{
    let here = match level_mount_spec(level as nat, first_call) {
        Some(m) => seq![m],
        None => Seq::empty(),
    };
    match level_next_spec(level) {
        LevelNext::SpawnNested { level: l } => if l < level { here + chain_mounts(l, false) } else { here },
        LevelNext::ExecPlaceholder => here,
    }
}

/// The number of new PID namespaces that a chain starting at `level` creates.
pub open spec fn chain_spawns(level: u8) -> nat
    decreases level,
{
    match level_next_spec(level) {
        LevelNext::SpawnNested { level: l } => if l < level { 1 + chain_spawns(l) } else { 0 },
        LevelNext::ExecPlaceholder => 0,
    }
}

/// The levels of a chain starting at `level` that replace their program
/// image with the placeholder.
pub open spec fn chain_execs(level: u8) -> Seq<nat>
    decreases level,
{
    match level_next_spec(level) {
        LevelNext::SpawnNested { level: l } => if l < level { chain_execs(l) } else { Seq::empty() },
        LevelNext::ExecPlaceholder => seq![level as nat],
    }
}

proof fn lemma_chain_inner(level: u8)
    ensures
        chain_mounts(level, false) =~= Seq::new(level as nat + 1, |i: int| mount_point_spec((level - i) as nat)),
        chain_spawns(level) == level as nat,
        chain_execs(level) == seq![0nat],
    decreases level,
{
    if level > 0 {
        lemma_chain_inner((level - 1) as u8);
    }
}

/// A chain launched with `levels = n` creates exactly `n` new PID namespaces,
/// so `n + 1` with the caller's own; it mounts exactly `n` views, at
/// `/tmp/proc<n-1>` down to `/tmp/proc0`, all distinct; and only the
/// innermost level, level 0, ends in the placeholder program.
pub proof fn lemma_chain_shape(n: u8)
    ensures
        chain_spawns(n) + 1 == n as nat + 1,
        chain_mounts(n, true).len() == n as nat,
        forall|i: int| 0 <= i < n ==> #[trigger] chain_mounts(n, true)[i] == mount_point_spec((n - 1 - i) as nat),
        chain_mounts(n, true).no_duplicates(),
        chain_execs(n) == seq![0nat],
{
    lemma_chain_inner(n);
    if n > 0 {
        let m = chain_mounts(n, true);
        lemma_chain_inner((n - 1) as u8);
        assert(m == chain_mounts((n - 1) as u8, false));
        assert forall|i: int, j: int| 0 <= i < m.len() && 0 <= j < m.len() && i != j implies m[i] != m[j] by {
            if m[i] == m[j] {
                assert(mount_base() + decimal((n - 1 - i) as nat) == mount_base() + decimal((n - 1 - j) as nat));
                assert(decimal((n - 1 - i) as nat) =~= (mount_base() + decimal((n - 1 - i) as nat)).subrange(
                    mount_base().len() as int,
                    m[i].len() as int,
                ));
                assert(decimal((n - 1 - j) as nat) =~= (mount_base() + decimal((n - 1 - j) as nat)).subrange(
                    mount_base().len() as int,
                    m[j].len() as int,
                ));
                lemma_decimal_injective((n - 1 - i) as nat, (n - 1 - j) as nat);
            }
        }
    } else {
        assert(chain_mounts(n, true) =~= Seq::<Seq<char>>::empty());
    }
}

proof fn lemma_unmounts_inner(level: u8)
    ensures
        chain_unmounts(level, false) =~= Seq::new(level as nat, |i: int| mount_point_spec((i + 1) as nat)),
    decreases level,
{
    if level > 0 {
        lemma_unmounts_inner((level - 1) as u8);
    }
}

/// On the path where every level's child ends and the chain unwinds, each
/// view that was mounted is removed exactly once, except the innermost
/// one, whose level ends in the placeholder program: the removals are the
/// mounts of every level above the leaf, innermost first.
pub proof fn lemma_chain_cleanup(n: u8)
    ensures
        chain_unmounts(n, true).len() + 1 == chain_mounts(n, true).len() || n == 0,
        n == 0 ==> chain_unmounts(n, true).len() == 0,
        forall|i: int| 0 <= i < chain_unmounts(n, true).len() ==>
            #[trigger] chain_unmounts(n, true)[i] == chain_mounts(n, true)[n - 2 - i],
{
    lemma_chain_shape(n);
    if n > 0 {
        lemma_unmounts_inner((n - 1) as u8);
        assert(chain_unmounts(n, true) == chain_unmounts((n - 1) as u8, false));
    }
}

} // verus!
