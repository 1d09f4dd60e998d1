use vstd::prelude::*;

use crate::decimal::{append_decimal, decimal};
use crate::errno::{Errno, Error};

verus! {

/// Namespace kinds, as `unshare(2)` and `setns(2)` take them.
pub const CLONE_NEWUTS: i32 = 0x04000000;

pub const CLONE_NEWIPC: i32 = 0x08000000;

pub const CLONE_NEWUSER: i32 = 0x10000000;

pub const CLONE_NEWPID: i32 = 0x20000000;

pub const CLONE_NEWNET: i32 = 0x40000000;

/// Access modes and flags, as `open(2)` takes them.
pub const O_RDONLY: i32 = 0x000000000;

pub const O_WRONLY: i32 = 0x000000001;

pub const O_RDWR: i32 = 0x000000002;

pub const O_CREAT: i32 = 0x000000100;

/// Where the kernel shows the network namespace of thread `tid` of process `pid`.
pub open spec fn thread_ns_path(pid: i32, tid: i32) -> Seq<char> {
    "/proc/"@ + decimal(pid as int) + "/task/"@ + decimal(tid as int) + "/ns/net"@
}

/// Where the kernel shows the network namespace of process `pid`.
pub open spec fn process_ns_path(pid: i32) -> Seq<char> {
    "/proc/"@ + decimal(pid as int) + "/ns/net"@
}

/// An open reference to a kernel network namespace: the descriptor that
/// `open(2)` gave for a namespace file, and the path it was opened from.
///
/// While the descriptor is open the kernel keeps the namespace alive. Closing
/// it is the owner's part: this type only records it.
#[derive(Clone, Debug, Eq)]
pub struct NetNS {
    fd: i32,
    path: String,
}

impl PartialEq for NetNS {
    fn eq(&self, other: &NetNS) -> (r: bool) {
        self.fd == other.fd && self.path == other.path
    }
}

impl vstd::std_specs::cmp::PartialEqSpecImpl for NetNS {
    open spec fn obeys_eq_spec() -> bool {
        true
    }

    open spec fn eq_spec(&self, other: &NetNS) -> bool {
        self.spec_fd() == other.spec_fd() && self.spec_path() == other.spec_path()
    }
}

impl NetNS {
    /// The descriptor of the namespace file.
    pub closed spec fn spec_fd(&self) -> i32 {
        self.fd
    }

    /// The path the namespace file was opened from.
    pub closed spec fn spec_path(&self) -> Seq<char> {
        self.path@
    }

    pub fn fd(&self) -> (r: i32)
        ensures
            r == self.spec_fd(),
    {
        self.fd
    }

    pub fn path(&self) -> (r: &String)
        ensures
            r@ == self.spec_path(),
    {
        &self.path
    }

    /// The path of the namespace file of thread `tid` of process `pid`:
    /// `/proc/{pid}/task/{tid}/ns/net`.
    pub fn thread_path(pid: i32, tid: i32) -> (r: String)
        ensures
            r@ == thread_ns_path(pid, tid),
    {
        proof {
            reveal_strlit("/proc/");
            reveal_strlit("/task/");
            reveal_strlit("/ns/net");
        }
        let mut s = String::from_str("/proc/");
        append_decimal(&mut s, pid);
        s.append("/task/");
        append_decimal(&mut s, tid);
        s.append("/ns/net");
        assert(s@ =~= thread_ns_path(pid, tid));
        s
    }

    /// The path of the namespace file of process `pid`: `/proc/{pid}/ns/net`.
    pub fn process_path(pid: i32) -> (r: String)
        ensures
            r@ == process_ns_path(pid),
    {
        proof {
            reveal_strlit("/proc/");
            reveal_strlit("/ns/net");
        }
        let mut s = String::from_str("/proc/");
        append_decimal(&mut s, pid);
        s.append("/ns/net");
        assert(s@ =~= process_ns_path(pid));
        s
    }

    /// Makes a handle from what `open(path, O_RDONLY)` returned, `opened`.
    /// The failure value (-1) gives the system failure with the calling
    /// thread's error number, which must not have changed since that call.
    pub fn get_from_path(path: &String, opened: i32) -> (r: Result<NetNS, Error>)
        ensures
            opened != -1 ==> (r matches Ok(ns) && ns.spec_fd() == opened && ns.spec_path() == path@),
            opened == -1 ==> (r matches Err(Error::Sys(_))),
    {
        match Errno::result(opened) {
            Ok(fd) => Ok(NetNS { fd, path: path.clone() }),
            Err(e) => Err(e),
        }
    }

    /// Makes a handle to the namespace of thread `tid` of process `pid`, from
    /// what opening [`NetNS::thread_path`] returned.
    pub fn get_from_thread(pid: i32, tid: i32, opened: i32) -> (r: Result<NetNS, Error>)
        ensures
            opened != -1 ==> (r matches Ok(ns) && ns.spec_fd() == opened && ns.spec_path()
                == thread_ns_path(pid, tid)),
            opened == -1 ==> (r matches Err(Error::Sys(_))),
    {
        NetNS::get_from_path(&NetNS::thread_path(pid, tid), opened)
    }

    /// Makes a handle to the namespace of process `pid`, from what opening
    /// [`NetNS::process_path`] returned.
    pub fn get_from_process(pid: i32, opened: i32) -> (r: Result<NetNS, Error>)
        ensures
            opened != -1 ==> (r matches Ok(ns) && ns.spec_fd() == opened && ns.spec_path()
                == process_ns_path(pid)),
            opened == -1 ==> (r matches Err(Error::Sys(_))),
    {
        NetNS::get_from_path(&NetNS::process_path(pid), opened)
    }

    /// Makes a handle to the calling thread's own namespace, given its process
    /// id `pid`, its thread id `tid`, and what opening their path returned.
    pub fn get(pid: i32, tid: i32, opened: i32) -> (r: Result<NetNS, Error>)
        ensures
            opened != -1 ==> (r matches Ok(ns) && ns.spec_fd() == opened && ns.spec_path()
                == thread_ns_path(pid, tid)),
            opened == -1 ==> (r matches Err(Error::Sys(_))),
    {
        NetNS::get_from_thread(pid, tid, opened)
    }

    /// The arguments with which `setns(2)` installs this handle's namespace as
    /// the calling thread's network namespace.
    pub fn set_args(&self) -> (r: (i32, i32))
        ensures
            r == (self.spec_fd(), CLONE_NEWNET),
    {
        (self.fd, CLONE_NEWNET)
    }

    /// Reads what `setns(2)` returned for the [`NetNS::set_args`] of a handle:
    /// the failure value (-1) gives the system failure with the calling
    /// thread's error number, anything else says the namespace is installed.
    pub fn set(installed: i32) -> (r: Result<(), Error>)
        ensures
            installed != -1 ==> r == Ok::<(), Error>(()),
            installed == -1 ==> (r matches Err(Error::Sys(_))),
    {
        match Errno::result(installed) {
            Ok(_v) => Ok(()),
            Err(e) => Err(e),
        }
    }
}

} // verus!
