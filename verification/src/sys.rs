//! Linux numbers, as the kernel's generic ABI defines them.
//!
//! A few platforms have numbers of their own. `app/` does not compile for them,
//! and `tests/sys.rs` holds every number to the `libc` of the platform at hand.

use vstd::prelude::*;

verus! {

pub const ENOENT: i32 = 2;

pub const ESRCH: i32 = 3;

pub const EINTR: i32 = 4;

pub const EBADF: i32 = 9;

pub const EACCES: i32 = 13;

pub const EEXIST: i32 = 17;

pub const EPIPE: i32 = 32;

pub const ENAMETOOLONG: i32 = 36;

/// `mount_setattr` and `open_tree`: act on the descriptor itself.
pub const AT_EMPTY_PATH: u32 = 0x1000;

/// `mount_setattr` and `open_tree`: act on the whole tree.
pub const AT_RECURSIVE: u32 = 0x8000;

/// `unlinkat`: remove a directory.
pub const AT_REMOVEDIR: u32 = 0x200;

pub const OPEN_TREE_CLONE: u32 = 1;

pub const OPEN_TREE_CLOEXEC: u32 = 0x80000;

pub const MOUNT_ATTR_RDONLY: u64 = 1;

pub const MS_PRIVATE: u64 = 0x40000;

pub const MNT_DETACH: u32 = 2;

/// `ifreq` flags: the interface is up.
pub const IFF_UP: i16 = 0x1;

/// `ifreq` flags: the interface is running.
pub const IFF_RUNNING: i16 = 0x40;

pub const SECCOMP_SET_MODE_FILTER: u32 = 1;

/// Synchronize all threads to the new filter.
pub const SECCOMP_FILTER_FLAG_TSYNC: u32 = 1;

pub const SIGHUP: i32 = 1;

pub const SIGINT: i32 = 2;

pub const SIGQUIT: i32 = 3;

pub const SIGKILL: i32 = 9;

pub const SIGUSR1: i32 = 10;

pub const SIGUSR2: i32 = 12;

pub const SIGTERM: i32 = 15;

pub const SIGCHLD: i32 = 17;

/// `prctl(PR_SET_MDWE)`: refuse memory that becomes executable.
pub const PR_MDWE_REFUSE_EXEC_GAIN: u64 = 1;

pub const RLIMIT_CPU: i32 = 0;

pub const RLIMIT_FSIZE: i32 = 1;

pub const RLIMIT_STACK: i32 = 3;

pub const RLIMIT_CORE: i32 = 4;

pub const RLIMIT_NPROC: i32 = 6;

pub const RLIMIT_NOFILE: i32 = 7;

pub const RLIMIT_AS: i32 = 9;

pub const CLONE_NEWTIME: u64 = 0x80;

/// `clone3`: give the parent a descriptor of the child.
pub const CLONE_PIDFD: u64 = 0x1000;

pub const CLONE_NEWNS: u64 = 0x20000;

pub const CLONE_NEWCGROUP: u64 = 0x2000000;

pub const CLONE_NEWUTS: u64 = 0x4000000;

pub const CLONE_NEWIPC: u64 = 0x8000000;

pub const CLONE_NEWUSER: u64 = 0x10000000;

pub const CLONE_NEWPID: u64 = 0x20000000;

pub const CLONE_NEWNET: u64 = 0x40000000;

} // verus!
