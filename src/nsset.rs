use vstd::prelude::*;

verus! {

/// One of the six namespace kinds that a launch can create or join.
#[derive(Clone, Copy, Debug, PartialEq, Eq, Structural)]
pub enum NsKind {
    Ipc,
    Mount,
    Network,
    Pid,
    Uts,
    User,
}

/// Kernel ABI value of `CLONE_NEWNS` (new mount namespace).
pub const CLONE_NEWNS: i32 = 0x0002_0000;
/// Kernel ABI value of `CLONE_NEWUTS`.
pub const CLONE_NEWUTS: i32 = 0x0400_0000;
/// Kernel ABI value of `CLONE_NEWIPC`.
pub const CLONE_NEWIPC: i32 = 0x0800_0000;
/// Kernel ABI value of `CLONE_NEWUSER`.
pub const CLONE_NEWUSER: i32 = 0x1000_0000;
/// Kernel ABI value of `CLONE_NEWPID`.
pub const CLONE_NEWPID: i32 = 0x2000_0000;
/// Kernel ABI value of `CLONE_NEWNET`.
pub const CLONE_NEWNET: i32 = 0x4000_0000;

/// The clone flag that creates a namespace of kind `k`.
pub open spec fn kind_bit(k: NsKind) -> i32 {
    match k {
        NsKind::Ipc => CLONE_NEWIPC,
        NsKind::Mount => CLONE_NEWNS,
        NsKind::Network => CLONE_NEWNET,
        NsKind::Pid => CLONE_NEWPID,
        NsKind::Uts => CLONE_NEWUTS,
        NsKind::User => CLONE_NEWUSER,
    }
}

/// Name of the kind's entry under `/proc/<pid>/ns/`.
pub open spec fn kind_name_spec(k: NsKind) -> Seq<char> {
    match k {
        NsKind::Ipc => seq!['i', 'p', 'c'],
        NsKind::Mount => seq!['m', 'n', 't'],
        NsKind::Network => seq!['n', 'e', 't'],
        NsKind::Pid => seq!['p', 'i', 'd'],
        NsKind::Uts => seq!['u', 't', 's'],
        NsKind::User => seq!['u', 's', 'e', 'r'],
    }
}

/// Returns the kind's entry name under `/proc/<pid>/ns/`.
pub fn kind_name(k: NsKind) -> (r: &'static str)
    ensures
        r@ == kind_name_spec(k),
{
    proof {
        reveal_strlit("ipc");
        reveal_strlit("mnt");
        reveal_strlit("net");
        reveal_strlit("pid");
        reveal_strlit("uts");
        reveal_strlit("user");
    }
    match k {
        NsKind::Ipc => "ipc",
        NsKind::Mount => "mnt",
        NsKind::Network => "net",
        NsKind::Pid => "pid",
        NsKind::Uts => "uts",
        NsKind::User => "user",
    }
}

/// A set of namespace kinds; the empty set is a plain fork.
#[derive(Clone, Copy, Debug, PartialEq, Eq, Structural)]
pub struct NamespaceSet {
    pub ipc: bool,
    pub mount: bool,
    pub network: bool,
    pub pid: bool,
    pub uts: bool,
    pub user: bool,
}

impl NamespaceSet {
    pub open spec fn has(&self, k: NsKind) -> bool {
        match k {
            NsKind::Ipc => self.ipc,
            NsKind::Mount => self.mount,
            NsKind::Network => self.network,
            NsKind::Pid => self.pid,
            NsKind::Uts => self.uts,
            NsKind::User => self.user,
        }
    }

    /// The clone flags that request exactly the kinds of the set.
    pub open spec fn bits_spec(&self) -> i32 {
        (if self.ipc { CLONE_NEWIPC } else { 0i32 }) | (if self.mount { CLONE_NEWNS } else { 0i32 })
            | (if self.network { CLONE_NEWNET } else { 0i32 }) | (if self.pid { CLONE_NEWPID } else { 0i32 })
            | (if self.uts { CLONE_NEWUTS } else { 0i32 }) | (if self.user { CLONE_NEWUSER } else { 0i32 })
    }

    /// The empty set.
    pub fn empty() -> (r: Self)
        ensures
            r@ == Set::<NsKind>::empty(),
    {
        let r = NamespaceSet { ipc: false, mount: false, network: false, pid: false, uts: false, user: false };
        assert(r@ =~= Set::<NsKind>::empty());
        r
    }

    /// The set holding the one kind `k`.
    pub fn single(k: NsKind) -> (r: Self)
        ensures
            r@ == set![k],
    {
        let mut r = Self::empty();
        r.insert(k);
        assert(r@ =~= set![k]);
        r
    }

    /// Adds `k` to the set.
    pub fn insert(&mut self, k: NsKind)
        ensures
            final(self)@ == old(self)@.insert(k),
    {
        match k {
            NsKind::Ipc => self.ipc = true,
            NsKind::Mount => self.mount = true,
            NsKind::Network => self.network = true,
            NsKind::Pid => self.pid = true,
            NsKind::Uts => self.uts = true,
            NsKind::User => self.user = true,
        }
        assert(final(self)@ =~= old(self)@.insert(k));
    }

    /// Whether `k` is in the set.
    pub fn contains(&self, k: NsKind) -> (r: bool)
        ensures
            r == self@.contains(k),
    {
        match k {
            NsKind::Ipc => self.ipc,
            NsKind::Mount => self.mount,
            NsKind::Network => self.network,
            NsKind::Pid => self.pid,
            NsKind::Uts => self.uts,
            NsKind::User => self.user,
        }
    }

    /// Whether the set holds no kind.
    pub fn is_empty(&self) -> (r: bool)
        ensures
            r == (self@ == Set::<NsKind>::empty()),
    {
        let r = !(self.ipc || self.mount || self.network || self.pid || self.uts || self.user);
        if !r {
            assert(!(self@ =~= Set::<NsKind>::empty()) || !(self@.contains(NsKind::Ipc) || self@.contains(NsKind::Mount)
                || self@.contains(NsKind::Network) || self@.contains(NsKind::Pid)
                || self@.contains(NsKind::Uts) || self@.contains(NsKind::User)));
        } else {
            assert(self@ =~= Set::<NsKind>::empty());
        }
        r
    }

    /// The flags to hand to clone(2) or unshare(2) for this set.
    pub fn clone_bits(&self) -> (r: i32)
        ensures
            r == self.bits_spec(),
    {
        (if self.ipc { CLONE_NEWIPC } else { 0i32 }) | (if self.mount { CLONE_NEWNS } else { 0i32 })
            | (if self.network { CLONE_NEWNET } else { 0i32 }) | (if self.pid { CLONE_NEWPID } else { 0i32 })
            | (if self.uts { CLONE_NEWUTS } else { 0i32 }) | (if self.user { CLONE_NEWUSER } else { 0i32 })
    }
}

impl View for NamespaceSet {
    type V = Set<NsKind>;

    open spec fn view(&self) -> Set<NsKind> {
        Set::new(|k: NsKind| self.has(k))
    }
}

/// The flags computed for a set request a new namespace of kind `k` exactly
/// when `k` is in the set, and nothing else.
pub proof fn lemma_clone_bits_exact(s: NamespaceSet, k: NsKind)
    ensures
        (s.bits_spec() & kind_bit(k) != 0) == s@.contains(k),
        s.bits_spec() & !(CLONE_NEWIPC | CLONE_NEWNS | CLONE_NEWNET | CLONE_NEWPID | CLONE_NEWUTS | CLONE_NEWUSER) == 0,
{
    let (a, b, c, d, e, f) = (s.ipc, s.mount, s.network, s.pid, s.uts, s.user);
    let x: i32 = s.bits_spec();
    assert(x == (if a { 0x0800_0000i32 } else { 0i32 }) | (if b { 0x0002_0000i32 } else { 0i32 })
            | (if c { 0x4000_0000i32 } else { 0i32 }) | (if d { 0x2000_0000i32 } else { 0i32 })
            | (if e { 0x0400_0000i32 } else { 0i32 }) | (if f { 0x1000_0000i32 } else { 0i32 }));
    assert(x == (if a { 0x0800_0000i32 } else { 0i32 }) | (if b { 0x0002_0000i32 } else { 0i32 })
            | (if c { 0x4000_0000i32 } else { 0i32 }) | (if d { 0x2000_0000i32 } else { 0i32 })
            | (if e { 0x0400_0000i32 } else { 0i32 }) | (if f { 0x1000_0000i32 } else { 0i32 })
        ==> (x & 0x0800_0000i32 != 0) == a && (x & 0x0002_0000i32 != 0) == b
            && (x & 0x4000_0000i32 != 0) == c && (x & 0x2000_0000i32 != 0) == d
            && (x & 0x0400_0000i32 != 0) == e && (x & 0x1000_0000i32 != 0) == f
            && x & !(0x0800_0000i32 | 0x0002_0000i32 | 0x4000_0000i32 | 0x2000_0000i32 | 0x0400_0000i32 | 0x1000_0000i32) == 0)
        by (bit_vector);
}

} // verus!
