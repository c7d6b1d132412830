//! The closed taxonomy of Linux namespace kinds, each bound to its canonical
//! short tag and to the `/proc/<pid>/ns/<tag>` path template.

use vstd::prelude::*;
use vstd::string::StringExecFns;

use crate::digits::dec_digits;
use crate::digits::u32_to_dec;

verus! {

/// One of the eight Linux namespace kinds.
#[derive(Debug, PartialEq, Eq, Hash, Clone, Copy, Structural)]
pub enum Kind {
    Cgroup,
    Ipc,
    Mnt,
    Net,
    Pid,
    Time,
    User,
    Uts,
}

impl Kind {
    /// The canonical short tag of this kind.
    pub open spec fn spec_tag(self) -> Seq<char> {
        match self {
            Kind::Cgroup => seq!['c', 'g', 'r', 'o', 'u', 'p'],
            Kind::Ipc => seq!['i', 'p', 'c'],
            Kind::Mnt => seq!['m', 'n', 't'],
            Kind::Net => seq!['n', 'e', 't'],
            Kind::Pid => seq!['p', 'i', 'd'],
            Kind::Time => seq!['t', 'i', 'm', 'e'],
            Kind::User => seq!['u', 's', 'e', 'r'],
            Kind::Uts => seq!['u', 't', 's'],
        }
    }

    /// Every tag is short: between 3 and 6 characters.
    pub proof fn lemma_tag_len(self)
        ensures
            3 <= self.spec_tag().len() <= 6,
    {
    }

    /// The canonical short name of the kind, as the kernel spells it under
    /// `/proc/<pid>/ns` and inside the symlink target.
    pub fn as_str(&self) -> (r: &'static str)
        ensures
            r@ == self.spec_tag(),
    {
        let r = match self {
            Kind::Cgroup => "cgroup",
            Kind::Ipc => "ipc",
            Kind::Mnt => "mnt",
            Kind::Net => "net",
            Kind::Pid => "pid",
            Kind::Time => "time",
            Kind::User => "user",
            Kind::Uts => "uts",
        };
        proof {
            reveal_strlit("cgroup");
            reveal_strlit("ipc");
            reveal_strlit("mnt");
            reveal_strlit("net");
            reveal_strlit("pid");
            reveal_strlit("time");
            reveal_strlit("user");
            reveal_strlit("uts");
            assert(r@ =~= self.spec_tag());
        }
        r
    }

    /// The path of the symlink that identifies this namespace of process
    /// `pid`.
    pub open spec fn spec_path(self, pid: u32) -> Seq<char> {
        "/proc/"@ + dec_digits(pid as nat) + "/ns/"@ + self.spec_tag()
    }

    /// Where the kernel exposes the namespace of kind `self` for process
    /// `pid`: `/proc/<pid>/ns/<tag>`.
    pub fn path(&self, pid: u32) -> (r: String)
        ensures
            r@ == self.spec_path(pid),
    {
        let mut r = String::from_str("/proc/");
        let dec = u32_to_dec(pid);
        r.append(dec.as_str());
        r.append("/ns/");
        r.append(self.as_str());
        proof {
            assert(r@ =~= self.spec_path(pid));
        }
        r
    }
}

} // verus!
