//! A plain-value model of the host's registry of virtual interfaces.
//!
//! Opening a device consults this registry: it decides whether a name or
//! descriptor resolves to an interface, whether the caller may attach to it,
//! and what maximum transmission unit the host reports for it.

use vstd::prelude::*;

use crate::medium::Medium;

verus! {

/// One virtual interface as the host knows it.
pub struct HostInterface {
    /// The interface name, unique within one host registry.
    pub name: String,
    /// The framing discipline the interface was created with.
    pub medium: Medium,
    /// The maximum transmission unit the host reports, in bytes. A value of
    /// zero records an interface whose unit the host cannot report: attaching
    /// to it fails the capability query.
    pub mtu: usize,
    /// Whether the interface is persistent and configured with the calling
    /// user as its owner; attaching to such an interface needs no privilege.
    pub user_owned: bool,
    /// The descriptor the host hands out for this interface.
    pub fd: i32,
}

/// The host's registry of virtual interfaces, as the adapter reads it.
pub struct Host {
    /// The interfaces that currently exist, each with a distinct name and a
    /// distinct descriptor.
    pub interfaces: Vec<HostInterface>,
    /// Whether the caller holds the privilege needed to create an interface
    /// or to attach to one it does not own.
    pub privileged: bool,
    /// The descriptor the host will assign to the next created interface;
    /// every existing descriptor is below it.
    pub next_fd: i32,
}

/// Whether some registered interface bears the given name.
pub open spec fn has_name(ifaces: Seq<HostInterface>, name: Seq<char>) -> bool {
    exists|i: int| 0 <= i < ifaces.len() && ifaces[i].name@ == name
}

/// The registered interface bearing the given name. Meaningful only when
/// `has_name` holds of a well-formed registry, where the name pins down one
/// entry.
pub open spec fn entry_named(ifaces: Seq<HostInterface>, name: Seq<char>) -> HostInterface {
    ifaces[choose|i: int| 0 <= i < ifaces.len() && ifaces[i].name@ == name]
}

/// Whether some registered interface answers to the given descriptor.
pub open spec fn has_fd(ifaces: Seq<HostInterface>, fd: i32) -> bool {
    exists|i: int| 0 <= i < ifaces.len() && ifaces[i].fd == fd
}

/// The registered interface answering to the given descriptor. Meaningful
/// only when `has_fd` holds of a well-formed registry.
pub open spec fn entry_with_fd(ifaces: Seq<HostInterface>, fd: i32) -> HostInterface {
    ifaces[choose|i: int| 0 <= i < ifaces.len() && ifaces[i].fd == fd]
}

impl Host {
    /// Well-formedness of the registry: names are distinct, descriptors are
    /// distinct, and every assigned descriptor lies below `next_fd`.
    pub open spec fn wf(self) -> bool {
        &&& forall|i: int, j: int|
            0 <= i < j < self.interfaces@.len() ==> self.interfaces@[i].name@
                != self.interfaces@[j].name@
        &&& forall|i: int, j: int|
            0 <= i < j < self.interfaces@.len() ==> self.interfaces@[i].fd
                != self.interfaces@[j].fd
        &&& forall|i: int|
            0 <= i < self.interfaces@.len() ==> #[trigger] self.interfaces@[i].fd < self.next_fd
    }

    /// Finds the registered interface bearing `name`, if any.
    pub fn find_by_name(&self, name: &str) -> (r: Option<usize>)
        ensures
            match r {
                Some(i) => i < self.interfaces@.len() && self.interfaces@[i as int].name@ == name@
                    && forall|j: int| 0 <= j < i ==> self.interfaces@[j].name@ != name@,
                None => !has_name(self.interfaces@, name@),
            },
    {
        let want: String = name.to_owned();
        let n = self.interfaces.len();
        let mut i: usize = 0;
        while i < n
            invariant
                n == self.interfaces@.len(),
                i <= n,
                want@ == name@,
                forall|j: int| 0 <= j < i ==> self.interfaces@[j].name@ != name@,
            decreases n - i,
        {
            if self.interfaces[i].name == want {
                return Some(i);
            }
            i = i + 1;
        }
        None
    }

    /// Finds the registered interface answering to `fd`, if any.
    pub fn find_by_fd(&self, fd: i32) -> (r: Option<usize>)
        ensures
            match r {
                Some(i) => i < self.interfaces@.len() && self.interfaces@[i as int].fd == fd
                    && forall|j: int| 0 <= j < i ==> self.interfaces@[j].fd != fd,
                None => !has_fd(self.interfaces@, fd),
            },
    {
        let n = self.interfaces.len();
        let mut i: usize = 0;
        while i < n
            invariant
                n == self.interfaces@.len(),
                i <= n,
                forall|j: int| 0 <= j < i ==> self.interfaces@[j].fd != fd,
            decreases n - i,
        {
            if self.interfaces[i].fd == fd {
                return Some(i);
            }
            i = i + 1;
        }
        None
    }
}

/// In a registry with distinct names, an index whose entry bears `name` is
/// the one that `entry_named` denotes.
pub proof fn lemma_entry_named_is_unique(ifaces: Seq<HostInterface>, name: Seq<char>, i: int)
    requires
        forall|a: int, b: int| 0 <= a < b < ifaces.len() ==> ifaces[a].name@ != ifaces[b].name@,
        0 <= i < ifaces.len(),
        ifaces[i].name@ == name,
    ensures
        has_name(ifaces, name),
        entry_named(ifaces, name) == ifaces[i],
{
    assert(has_name(ifaces, name));
    let j = choose|j: int| 0 <= j < ifaces.len() && ifaces[j].name@ == name;
    if i < j {
        assert(ifaces[i].name@ != ifaces[j].name@);
    } else if j < i {
        assert(ifaces[j].name@ != ifaces[i].name@);
    }
}

/// In a registry with distinct descriptors, an index whose entry answers to
/// `fd` is the one that `entry_with_fd` denotes.
pub proof fn lemma_entry_with_fd_is_unique(ifaces: Seq<HostInterface>, fd: i32, i: int)
    requires
        forall|a: int, b: int| 0 <= a < b < ifaces.len() ==> ifaces[a].fd != ifaces[b].fd,
        0 <= i < ifaces.len(),
        ifaces[i].fd == fd,
    ensures
        has_fd(ifaces, fd),
        entry_with_fd(ifaces, fd) == ifaces[i],
{
    assert(has_fd(ifaces, fd));
    let j = choose|j: int| 0 <= j < ifaces.len() && ifaces[j].fd == fd;
    if i < j {
        assert(ifaces[i].fd != ifaces[j].fd);
    } else if j < i {
        assert(ifaces[j].fd != ifaces[i].fd);
    }
}

} // verus!
