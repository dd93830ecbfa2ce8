use vstd::prelude::*;

use crate::idmap::{
    commas_to_newlines, deny_text, map_file_name, map_file_path, map_text, proc_path_spec,
    setgroups_deny, setgroups_name, setgroups_path, MapKind,
};

verus! {

/// One step the parent takes after it has spawned a child into a new user
/// namespace.
#[derive(Debug)]
pub enum ParentStep {
    /// Write `content` to the file at `path` in one call.
    WriteFile { path: String, content: Vec<u8> },
    /// Close the parent's write end of the channel: the child's read returns.
    ReleaseChild,
    /// Wait for the child to terminate.
    WaitChild,
}

/// What a parent step is, over plain sequences.
pub enum StepModel {
    Write(Seq<char>, Seq<u8>),
    Release,
    Wait,
}

impl View for ParentStep {
    type V = StepModel;

    open spec fn view(&self) -> StepModel {
        match self {
            ParentStep::WriteFile { path, content } => StepModel::Write(path@, content@),
            ParentStep::ReleaseChild => StepModel::Release,
            ParentStep::WaitChild => StepModel::Wait,
        }
    }
}

/// The steps of the parent, in order: the UID map if one is given; if a GID
/// map is given, first `deny` to setgroups and then the GID map; then the
/// release of the child, then the wait.
pub open spec fn parent_plan_spec(pid: nat, uid_map: Option<Seq<u8>>, gid_map: Option<Seq<u8>>) -> Seq<StepModel> {
    let uid_steps = match uid_map {
        Some(m) => seq![StepModel::Write(proc_path_spec(pid, map_file_name(MapKind::Uid)), map_text(m))],
        None => Seq::empty(),
    };
    let gid_steps = match gid_map {
        Some(m) => seq![
            StepModel::Write(proc_path_spec(pid, setgroups_name()), deny_text()),
            StepModel::Write(proc_path_spec(pid, map_file_name(MapKind::Gid)), map_text(m)),
        ],
        None => Seq::empty(),
    };
    uid_steps + gid_steps + seq![StepModel::Release, StepModel::Wait]
}

pub open spec fn steps_model(v: Seq<ParentStep>) -> Seq<StepModel> {
    v.map_values(|s: ParentStep| s@)
}

/// The parent's side of the ID-map handshake for child `pid`.
pub fn parent_plan(pid: u32, uid_map: Option<&[u8]>, gid_map: Option<&[u8]>) -> (r: Vec<ParentStep>)
    ensures
        steps_model(r@) == parent_plan_spec(
            pid as nat,
            match uid_map { Some(m) => Some(m@), None => None },
            match gid_map { Some(m) => Some(m@), None => None },
        ),
{
    let mut r: Vec<ParentStep> = Vec::new();
    match uid_map {
        Some(m) => {
            let path = map_file_path(pid, MapKind::Uid);
            let content = commas_to_newlines(m);
            r.push(ParentStep::WriteFile { path, content });
        },
        None => {},
    }
    match gid_map {
        Some(m) => {
            let path = setgroups_path(pid);
            let content = setgroups_deny();
            r.push(ParentStep::WriteFile { path, content });
            let path = map_file_path(pid, MapKind::Gid);
            let content = commas_to_newlines(m);
            r.push(ParentStep::WriteFile { path, content });
        },
        None => {},
    }
    r.push(ParentStep::ReleaseChild);
    r.push(ParentStep::WaitChild);
    assert(steps_model(r@) =~= parent_plan_spec(
        pid as nat,
        match uid_map { Some(m) => Some(m@), None => None },
        match gid_map { Some(m) => Some(m@), None => None },
    ));
    r
}

/// One step of the child's entry routine during the handshake.
#[derive(Clone, Copy, Debug, PartialEq, Eq, Structural)]
pub enum ChildStep {
    /// Close the child's inherited copy of the write end.
    CloseWriter,
    /// Block reading the read end until end of input.
    AwaitRelease,
    /// Replace the program image.
    Exec,
}

pub open spec fn child_plan_spec() -> Seq<ChildStep> {
    seq![ChildStep::CloseWriter, ChildStep::AwaitRelease, ChildStep::Exec]
}

/// The child's side of the handshake: close its write end, wait, then exec.
pub fn child_plan() -> (r: Vec<ChildStep>)
    ensures
        r@ == child_plan_spec(),
{
    let r = vec![ChildStep::CloseWriter, ChildStep::AwaitRelease, ChildStep::Exec];
    assert(r@ =~= child_plan_spec());
    r
}

/// How many write ends of the channel are still open once the parent has
/// taken its first `p` steps and the child its first `c` steps.
pub open spec fn open_writers(parent: Seq<StepModel>, p: int, child: Seq<ChildStep>, c: int) -> nat {
    let parent_open: nat = if (exists|i: int| 0 <= i < p && parent[i] is Release) { 0 } else { 1 };
    let child_open: nat = if (exists|i: int| 0 <= i < c && child[i] == ChildStep::CloseWriter) { 0 } else { 1 };
    parent_open + child_open
}

/// Index of the release step in a parent plan.
pub open spec fn release_index(uid_map: Option<Seq<u8>>, gid_map: Option<Seq<u8>>) -> int {
    (if uid_map is Some { 1int } else { 0int }) + (if gid_map is Some { 2int } else { 0int })
}

/// The parent releases the child exactly once, after every file write and
/// before it waits; writing `deny` to setgroups comes before the GID map.
pub proof fn lemma_plan_order(pid: nat, uid_map: Option<Seq<u8>>, gid_map: Option<Seq<u8>>)
    ensures
        ({
            let plan = parent_plan_spec(pid, uid_map, gid_map);
            let k = release_index(uid_map, gid_map);
            &&& plan.len() == k + 2
            &&& plan[k] is Release
            &&& plan[k + 1] is Wait
            &&& forall|i: int| 0 <= i < k ==> plan[i] is Write
            &&& forall|i: int| 0 <= i < plan.len() && i != k ==> !(plan[i] is Release)
            &&& gid_map is Some ==> plan[k - 2] == StepModel::Write(proc_path_spec(pid, setgroups_name()), deny_text())
            &&& gid_map is Some ==> plan[k - 1] == StepModel::Write(
                proc_path_spec(pid, map_file_name(MapKind::Gid)),
                map_text(gid_map.unwrap()),
            )
        }),
{
}

/// Whatever maps are written, once the parent has gone past its release step
/// and the child has closed its own write end, no write end is left open, so
/// the child's blocking read sees end of input.
pub proof fn lemma_handshake_releases(
    pid: nat,
    uid_map: Option<Seq<u8>>,
    gid_map: Option<Seq<u8>>,
    p: int,
    c: int,
)
    requires
        release_index(uid_map, gid_map) < p <= parent_plan_spec(pid, uid_map, gid_map).len(),
        1 <= c <= child_plan_spec().len(),
    ensures
        open_writers(parent_plan_spec(pid, uid_map, gid_map), p, child_plan_spec(), c) == 0,
{
    lemma_plan_order(pid, uid_map, gid_map);
    let k = release_index(uid_map, gid_map);
    assert(parent_plan_spec(pid, uid_map, gid_map)[k] is Release);
    assert(child_plan_spec()[0] == ChildStep::CloseWriter);
}

/// Before the parent's release step, the child stays blocked: the parent's
/// write end is still open.
pub proof fn lemma_handshake_holds(
    pid: nat,
    uid_map: Option<Seq<u8>>,
    gid_map: Option<Seq<u8>>,
    p: int,
    c: int,
)
    requires
        0 <= p <= release_index(uid_map, gid_map),
    ensures
        open_writers(parent_plan_spec(pid, uid_map, gid_map), p, child_plan_spec(), c) >= 1,
{
    lemma_plan_order(pid, uid_map, gid_map);
}

} // verus!
