//! What a sandbox is asked to be.

use vstd::prelude::*;

verus! {

/// The command that the child executes.
#[derive(Debug)]
pub struct Command {
    /// The path of the command, and its arguments.
    pub args: Vec<String>,
    /// What the command is told its own name is, if not its path.
    pub argv0: Option<String>,
    /// The directory that it starts in.
    pub cwd: String,
}

/// Toggles of the child process.
#[derive(Clone, Copy, Debug, PartialEq, Eq, Structural)]
pub struct ProcessOptions {
    pub die_with_parent: bool,
    pub dumpable: bool,
    pub new_session: bool,
    pub disable_tsc: bool,
    pub no_new_privs: bool,
    pub mdwe: bool,
    /// Whether signals are passed on to the child. It is killed otherwise.
    pub forward_signals: bool,
}

/// The environment of the command.
#[derive(Debug)]
pub struct Environment {
    /// Whether it starts out empty.
    pub clear: bool,
    /// The variables that are kept even so.
    pub keep: Vec<String>,
    /// The variables that are set, each with its value.
    pub set: Vec<(String, String)>,
}

/// Resource limits, each soft and hard at once.
#[derive(Clone, Copy, Debug, PartialEq, Eq)]
pub struct ResourceLimits {
    pub nofile: Option<u64>,
    pub nproc: Option<u64>,
    pub fsize_mb: Option<u64>,
    pub stack_mb: Option<u64>,
    pub as_mb: Option<u64>,
    pub core_mb: Option<u64>,
    pub cpu_seconds: Option<u64>,
}

/// What a procfs shows.
#[derive(Clone, Copy, Debug, PartialEq, Eq, Structural)]
pub enum ProcSubset {
    Pid,
}

/// Whom a procfs hides.
#[derive(Clone, Copy, Debug, PartialEq, Eq, Structural)]
pub enum HidePid {
    Visible,
    Hidden,
    Invisible,
}

/// One mount.
#[derive(Debug)]
pub enum MountEntry {
    Bind { src: String, dst: String, read_only: bool },
    Tmpfs { dst: String, size: Option<u64>, mode: Option<u32>, read_only: bool },
    Proc { dst: String, subset: Option<ProcSubset>, hidepid: Option<HidePid> },
    Mqueue { dst: String },
    File { dst: String, content: String, read_only: bool },
}

/// The mounts, in the order in which they are made.
#[derive(Debug)]
pub struct Table {
    pub entries: Vec<MountEntry>,
}

/// What the command may do with files and ports.
#[derive(Debug)]
pub struct Landlock {
    pub allowed_read: Vec<String>,
    pub allowed_write: Vec<String>,
    pub allowed_execute: Vec<String>,
    pub allowed_refer: Vec<String>,
    pub allowed_truncate: Vec<String>,
    pub allowed_ioctl_dev: Vec<String>,
    pub allowed_bind: Vec<u16>,
    pub allowed_connect: Vec<u16>,
}

/// The capabilities that are kept, by their numbers.
#[derive(Debug)]
pub struct Capabilities {
    pub keep: Vec<u8>,
}

/// A descriptor of the parent, and where the command finds it.
#[derive(Clone, Copy, Debug, PartialEq, Eq, Structural)]
pub struct FdMapping {
    pub src: i32,
    pub dst: i32,
}

/// The descriptors that the command finds open.
#[derive(Debug)]
pub struct FileDescriptors {
    pub mappings: Vec<FdMapping>,
    /// Whether every other descriptor is closed.
    pub close_fds: bool,
}

/// The namespaces that are new.
#[derive(Debug)]
pub struct Namespaces {
    pub user: bool,
    pub pid: bool,
    pub mount: bool,
    pub uts: bool,
    pub ipc: bool,
    pub net: bool,
    pub cgroup: bool,
    pub time: bool,
    /// The hostname, if the UTS namespace is new.
    pub hostname: Option<String>,
}

/// A range of ids, as they are numbered inside and outside.
#[derive(Clone, Copy, Debug, PartialEq, Eq, Structural)]
pub struct IdMap {
    pub inside: u32,
    pub outside: u32,
    pub count: u32,
}

/// A sandbox.
#[derive(Debug)]
pub struct Sandbox {
    pub command: Command,
    pub process: ProcessOptions,
    pub namespaces: Namespaces,
    pub env: Option<Environment>,
    pub rlimits: Option<ResourceLimits>,
    pub mounts: Table,
    pub landlock: Option<Landlock>,
    pub capabilities: Option<Capabilities>,
    pub fd: Option<FileDescriptors>,
    pub seccomp_program: Option<kafel::BpfProgram>,
    pub uid_map: Option<IdMap>,
    pub gid_map: Option<IdMap>,
}

/// A compiled seccomp policy; `kafel`'s type, carried through.
#[verifier::external_type_specification]
#[verifier::external_body]
pub struct ExBpfProgram(kafel::BpfProgram);

} // verus!
