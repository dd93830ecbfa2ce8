use vstd::prelude::*;
use vstd::string::StringExecFns;

use crate::text::{append_decimal, decimal};

verus! {

/// The byte `,` that separates records on a command line.
pub const COMMA: u8 = 44;
/// The byte `\n` that separates records in a mapping file.
pub const NEWLINE: u8 = 10;

/// One byte of a mapping string as it is written to the mapping file.
pub open spec fn record_byte(b: u8) -> u8 {
    if b == COMMA { NEWLINE } else { b }
}

/// The mapping file content for a command-line mapping string: every comma
/// becomes a newline, every other byte stays as it is.
pub open spec fn map_text(s: Seq<u8>) -> Seq<u8> {
    s.map_values(|b: u8| record_byte(b))
}

/// Turns a comma-separated mapping string into mapping file content.
pub fn commas_to_newlines(s: &[u8]) -> (r: Vec<u8>)
    ensures
        r@ == map_text(s@),
{
    let mut r: Vec<u8> = Vec::new();
    let mut i: usize = 0;
    while i < s.len()
        invariant
            i <= s@.len(),
            r@ == map_text(s@.subrange(0, i as int)),
        decreases s@.len() - i,
    {
        let b = s[i];
        if b == COMMA {
            r.push(NEWLINE);
        } else {
            r.push(b);
        }
        assert(s@.subrange(0, i + 1) =~= s@.subrange(0, i as int).push(b));
        assert(r@ =~= map_text(s@.subrange(0, i + 1)));
        i = i + 1;
    }
    assert(s@.subrange(0, s@.len() as int) =~= s@);
    r
}

/// Which of the two identity mapping tables of a process.
#[derive(Clone, Copy, Debug, PartialEq, Eq, Structural)]
pub enum MapKind {
    Uid,
    Gid,
}

/// `/proc/`
pub open spec fn proc_prefix() -> Seq<char> {
    seq!['/', 'p', 'r', 'o', 'c', '/']
}

/// `/proc/<pid>/<leaf>`
pub open spec fn proc_path_spec(pid: nat, leaf: Seq<char>) -> Seq<char> {
    proc_prefix() + decimal(pid) + seq!['/'] + leaf
}

/// The file name of a mapping table under `/proc/<pid>/`.
pub open spec fn map_file_name(kind: MapKind) -> Seq<char> {
    match kind {
        MapKind::Uid => seq!['u', 'i', 'd', '_', 'm', 'a', 'p'],
        MapKind::Gid => seq!['g', 'i', 'd', '_', 'm', 'a', 'p'],
    }
}

/// The name of the file that controls setgroups(2) under `/proc/<pid>/`.
pub open spec fn setgroups_name() -> Seq<char> {
    seq!['s', 'e', 't', 'g', 'r', 'o', 'u', 'p', 's']
}

/// The bytes `deny\n`, written to the setgroups file before a GID map.
pub open spec fn deny_text() -> Seq<u8> {
    seq![100u8, 101u8, 110u8, 121u8, 10u8]
}

/// Builds `/proc/<pid>/<leaf>`.
pub fn proc_path(pid: u32, leaf: &str) -> (r: String)
    ensures
        r@ == proc_path_spec(pid as nat, leaf@),
{
    proof {
        reveal_strlit("/proc/");
        reveal_strlit("/");
    }
    let mut s = String::from_str("/proc/");
    append_decimal(&mut s, pid);
    s.append("/");
    s.append(leaf);
    assert(s@ =~= proc_path_spec(pid as nat, leaf@));
    s
}

/// The path of the UID or GID mapping file of process `pid`.
pub fn map_file_path(pid: u32, kind: MapKind) -> (r: String)
    ensures
        r@ == proc_path_spec(pid as nat, map_file_name(kind)),
{
    proof {
        reveal_strlit("uid_map");
        reveal_strlit("gid_map");
    }
    match kind {
        MapKind::Uid => proc_path(pid, "uid_map"),
        MapKind::Gid => proc_path(pid, "gid_map"),
    }
}

/// The path of the setgroups control file of process `pid`.
pub fn setgroups_path(pid: u32) -> (r: String)
    ensures
        r@ == proc_path_spec(pid as nat, setgroups_name()),
{
    proof {
        reveal_strlit("setgroups");
    }
    proc_path(pid, "setgroups")
}

/// The content written to the setgroups file: `deny\n`.
pub fn setgroups_deny() -> (r: Vec<u8>)
    ensures
        r@ == deny_text(),
{
    let r: Vec<u8> = vec![100u8, 101u8, 110u8, 121u8, 10u8];
    assert(r@ =~= deny_text());
    r
}

} // verus!
