use nslaunch::errors::LaunchError;
use nslaunch::handshake::{child_plan, parent_plan, ChildStep, ParentStep};
use nslaunch::idmap::{commas_to_newlines, map_file_path, setgroups_deny, setgroups_path, MapKind};
use nslaunch::joiner::{
    join_error_from_errno, join_next, ns_handle_path, self_handle_path, JoinAction, JoinError, JoinEvent,
};
use nslaunch::nested::{level_finish, level_plan, mount_point, placeholder_argv, LevelNext};
use nslaunch::nsset::{kind_name, NamespaceSet, NsKind, CLONE_NEWNS, CLONE_NEWPID, CLONE_NEWUSER};
use nslaunch::reaper::{reap_next, reap_wait_flags, ReapAction, WaitOutcome};
use nslaunch::spawner::{spawn_request, SIGCHLD, STACK_SIZE};
use nslaunch::text::decimal_string;

const ALL: [NsKind; 6] = [NsKind::Ipc, NsKind::Mount, NsKind::Network, NsKind::Pid, NsKind::Uts, NsKind::User];

#[test]
fn mapping_commas_become_newlines() {
    assert_eq!(commas_to_newlines(b"0 0 1,1000 1000 1"), b"0 0 1\n1000 1000 1".to_vec());
}

#[test]
fn mapping_single_record_unchanged() {
    assert_eq!(commas_to_newlines(b"0 1000 1"), b"0 1000 1".to_vec());
}

#[test]
fn mapping_only_commas_change() {
    assert_eq!(commas_to_newlines(b"0,0,1"), b"0\n0\n1".to_vec());
    assert_eq!(commas_to_newlines(b""), Vec::<u8>::new());
    assert_eq!(commas_to_newlines(b",,"), b"\n\n".to_vec());
}

#[test]
fn decimal_strings() {
    assert_eq!(decimal_string(0), "0");
    assert_eq!(decimal_string(7), "7");
    assert_eq!(decimal_string(10), "10");
    assert_eq!(decimal_string(4294967295), "4294967295");
}

#[test]
fn mapping_paths() {
    assert_eq!(map_file_path(1234, MapKind::Uid), "/proc/1234/uid_map");
    assert_eq!(map_file_path(1234, MapKind::Gid), "/proc/1234/gid_map");
    assert_eq!(setgroups_path(42), "/proc/42/setgroups");
    assert_eq!(setgroups_deny(), b"deny\n".to_vec());
}

#[test]
fn handle_paths() {
    assert_eq!(ns_handle_path(1, NsKind::Mount), "/proc/1/ns/mnt");
    assert_eq!(ns_handle_path(305, NsKind::User), "/proc/305/ns/user");
    assert_eq!(self_handle_path(NsKind::Network), "/proc/self/ns/net");
    let names: Vec<&str> = ALL.iter().map(|k| kind_name(*k)).collect();
    assert_eq!(names, vec!["ipc", "mnt", "net", "pid", "uts", "user"]);
}

#[test]
fn namespace_set_basics() {
    let mut s = NamespaceSet::empty();
    assert!(s.is_empty());
    assert_eq!(s.clone_bits(), 0);
    s.insert(NsKind::Pid);
    s.insert(NsKind::Pid);
    assert!(!s.is_empty());
    assert!(s.contains(NsKind::Pid));
    assert!(!s.contains(NsKind::User));
    assert_eq!(s.clone_bits(), CLONE_NEWPID);
    s.insert(NsKind::User);
    s.insert(NsKind::Mount);
    assert_eq!(s.clone_bits(), CLONE_NEWPID | CLONE_NEWUSER | CLONE_NEWNS);
}

#[test]
fn single_kind_sets_request_only_that_kind() {
    for k in ALL.iter() {
        let s = NamespaceSet::single(*k);
        let bits = s.clone_bits();
        assert_eq!(bits.count_ones(), 1);
        for other in ALL.iter() {
            let o = NamespaceSet::single(*other).clone_bits();
            assert_eq!(bits & o != 0, k == other);
            assert_eq!(s.contains(*other), k == other);
        }
    }
}

#[test]
fn all_kinds_clone_bits() {
    let mut s = NamespaceSet::empty();
    for k in ALL.iter() {
        s.insert(*k);
    }
    assert_eq!(s.clone_bits(), 0x7C02_0000);
}

#[test]
fn spawn_request_fields() {
    let mut s = NamespaceSet::empty();
    s.insert(NsKind::Uts);
    let r = spawn_request(&s);
    assert_eq!(r.flags, 0x0400_0000);
    assert_eq!(r.exit_signal, SIGCHLD);
    assert_eq!(r.stack.len(), STACK_SIZE);
    assert!(r.stack.len() >= 1024 * 1024);
}

fn write_of(step: &ParentStep) -> (String, Vec<u8>) {
    match step {
        ParentStep::WriteFile { path, content } => (path.clone(), content.clone()),
        other => panic!("expected a write, got {:?}", other),
    }
}

#[test]
fn parent_plan_with_both_maps() {
    let plan = parent_plan(77, Some(&b"0 1000 1"[..]), Some(&b"0 100 1,1 200 1"[..]));
    assert_eq!(plan.len(), 5);
    assert_eq!(write_of(&plan[0]), ("/proc/77/uid_map".to_string(), b"0 1000 1".to_vec()));
    assert_eq!(write_of(&plan[1]), ("/proc/77/setgroups".to_string(), b"deny\n".to_vec()));
    assert_eq!(write_of(&plan[2]), ("/proc/77/gid_map".to_string(), b"0 100 1\n1 200 1".to_vec()));
    assert!(matches!(plan[3], ParentStep::ReleaseChild));
    assert!(matches!(plan[4], ParentStep::WaitChild));
}

#[test]
fn parent_plan_gid_only() {
    let plan = parent_plan(9, None, Some(&b"0 0 1"[..]));
    assert_eq!(plan.len(), 4);
    assert_eq!(write_of(&plan[0]).0, "/proc/9/setgroups");
    assert_eq!(write_of(&plan[1]).0, "/proc/9/gid_map");
    assert!(matches!(plan[2], ParentStep::ReleaseChild));
}

#[test]
fn parent_plan_without_maps_still_releases() {
    let plan = parent_plan(9, None, None);
    assert_eq!(plan.len(), 2);
    assert!(matches!(plan[0], ParentStep::ReleaseChild));
    assert!(matches!(plan[1], ParentStep::WaitChild));
}

#[test]
fn child_closes_writer_first() {
    assert_eq!(child_plan(), vec![ChildStep::CloseWriter, ChildStep::AwaitRelease, ChildStep::Exec]);
}

#[test]
fn nested_levels() {
    let root = level_plan(5, true);
    assert!(root.mount_point.is_none());
    assert_eq!(root.next, LevelNext::SpawnNested { level: 4 });
    let mid = level_plan(4, false);
    assert_eq!(mid.mount_point.as_deref(), Some("/tmp/proc4"));
    assert_eq!(mid.next, LevelNext::SpawnNested { level: 3 });
    let leaf = level_plan(0, false);
    assert_eq!(leaf.mount_point.as_deref(), Some("/tmp/proc0"));
    assert_eq!(leaf.next, LevelNext::ExecPlaceholder);
    assert_eq!(mount_point(255), "/tmp/proc255");
    assert_eq!(placeholder_argv(), vec!["sleep".to_string(), "1000".to_string()]);
}

#[test]
fn nested_root_at_zero_only_execs() {
    let p = level_plan(0, true);
    assert!(p.mount_point.is_none());
    assert_eq!(p.next, LevelNext::ExecPlaceholder);
}

#[test]
fn nested_chain_counts() {
    let n: u8 = 3;
    let mut level = n;
    let mut first = true;
    let mut mounts: Vec<String> = Vec::new();
    let mut spawns = 0;
    let mut execs = Vec::new();
    loop {
        let p = level_plan(level, first);
        if let Some(m) = p.mount_point {
            mounts.push(m);
        }
        match p.next {
            LevelNext::SpawnNested { level: l } => {
                spawns += 1;
                level = l;
                first = false;
            }
            LevelNext::ExecPlaceholder => {
                execs.push(level);
                break;
            }
        }
    }
    assert_eq!(spawns + 1, 4);
    assert_eq!(mounts, vec!["/tmp/proc2", "/tmp/proc1", "/tmp/proc0"]);
    assert_eq!(execs, vec![0]);
}

#[test]
fn join_session() {
    assert_eq!(join_next(false, JoinEvent::Joined), JoinAction::Exec);
    assert_eq!(join_next(true, JoinEvent::Joined), JoinAction::Fork);
    assert_eq!(join_next(true, JoinEvent::ForkedParent { child: 12 }), JoinAction::WaitChild { pid: 12 });
    assert_eq!(join_next(true, JoinEvent::ForkedChild), JoinAction::Exec);
    assert_eq!(join_next(true, JoinEvent::ChildExited { status: 3 }), JoinAction::Exit { status: 3 });
}

#[test]
fn join_failures_stop() {
    assert_eq!(
        join_next(true, JoinEvent::JoinFailed { errno: 2 }),
        JoinAction::Fail { error: JoinError::StaleHandle }
    );
    assert_eq!(
        join_next(false, JoinEvent::JoinFailed { errno: 22 }),
        JoinAction::Fail { error: JoinError::KindMismatch }
    );
    assert_eq!(join_error_from_errno(1), JoinError::NotPermitted);
    assert_eq!(join_error_from_errno(9), JoinError::Other { errno: 9 });
}

#[test]
fn reaper_steps() {
    assert_eq!(reap_wait_flags(), 11);
    assert_eq!(reap_next(true, WaitOutcome::Changed { pid: Some(40) }), ReapAction::Report { pid: 40 });
    assert_eq!(reap_next(false, WaitOutcome::Changed { pid: Some(40) }), ReapAction::Again);
    assert_eq!(reap_next(true, WaitOutcome::Changed { pid: None }), ReapAction::Idle);
    assert_eq!(reap_next(true, WaitOutcome::Failed { errno: 10 }), ReapAction::NoChildren);
    assert_eq!(reap_next(true, WaitOutcome::Failed { errno: 4 }), ReapAction::Fail { errno: 4 });
}

#[test]
fn launch_errors() {
    let all = [
        LaunchError::Spawn { errno: 1 },
        LaunchError::Join { error: JoinError::StaleHandle },
        LaunchError::MapWrite { errno: 13 },
        LaunchError::Sync { errno: 9 },
        LaunchError::Mount { errno: 1 },
        LaunchError::Exec { errno: 2 },
    ];
    let names: Vec<&str> = all.iter().map(|e| e.operation()).collect();
    assert_eq!(names, vec!["clone", "setns", "write", "pipe", "mount", "execvp"]);
    for e in all.iter() {
        assert_ne!(e.exit_status(), 0);
    }
}

#[test]
fn nested_unwinding() {
    let f = level_finish(3, false, 0);
    assert_eq!(f.unmount.as_deref(), Some("/tmp/proc3"));
    assert_eq!(f.status, 0);
    let root = level_finish(5, true, 7);
    assert!(root.unmount.is_none());
    assert_eq!(root.status, 7);
}
