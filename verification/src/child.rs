//! Typed child-runtime inputs.

use vstd::prelude::*;

use crate::completion::CompletionSink;
use crate::mount::PreparedBindMount;
use crate::zstr::ZStr;

verus! {

/// One complete child-runtime invocation.
#[derive(Debug)]
pub struct ChildSpec<'a> {
    pub sync_fd: Option<i32>,
    pub status_fd: Option<i32>,
    pub completion: Option<CompletionSink<'a>>,
    pub process: ProcessSpec,
    pub mounts: Option<MountPlan<'a>>,
    pub hostname: Option<ZStr<'a>>,
    pub bring_up_loopback: bool,
    pub env: Option<EnvSpec<'a>>,
    pub rlimits: Option<RlimitSpec<'a>>,
    pub landlock: Option<LandlockSpec<'a>>,
    pub caps: Option<CapsSpec<'a>>,
    pub fds: FdSpec<'a>,
    pub seccomp: Option<SeccompSpec<'a>>,
    pub cwd: Option<ZStr<'a>>,
    pub command: ExecSpec<'a>,
}

/// Process toggles applied during child setup.
#[derive(Clone, Copy, Debug)]
pub struct ProcessSpec {
    pub pdeathsig: Option<i32>,
    pub verify_parent_alive: bool,
    pub dumpable: bool,
    pub new_session: bool,
    pub disable_tsc: bool,
    pub no_new_privs: bool,
    pub mdwe_flags: Option<u64>,
}

impl Default for ProcessSpec {
    /// Every toggle off.
    fn default() -> (r: Self)
        ensures
            r == (ProcessSpec {
                pdeathsig: None,
                verify_parent_alive: false,
                dumpable: false,
                new_session: false,
                disable_tsc: false,
                no_new_privs: false,
                mdwe_flags: None,
            }),
    {
        ProcessSpec {
            pdeathsig: None,
            verify_parent_alive: false,
            dumpable: false,
            new_session: false,
            disable_tsc: false,
            no_new_privs: false,
            mdwe_flags: None,
        }
    }
}

/// Prepared filesystem mount plan for child-side execution.
#[derive(Clone, Copy, Debug)]
pub struct MountPlan<'a> {
    pub entries: &'a [MountEntry<'a>],
}

/// One filesystem mount operation.
#[derive(Clone, Copy, Debug)]
pub enum MountEntry<'a> {
    Bind(BindMount<'a>),
    Tmpfs(TmpfsMount<'a>),
    Proc(ProcMount<'a>),
    Mqueue(MqueueMount<'a>),
    File(FileMount<'a>),
}

/// What a bind mount shows.
#[derive(Clone, Copy, Debug)]
pub enum BindMountSource<'a> {
    /// A path in the child's mount namespace, before the root changes.
    Path(ZStr<'a>),
    /// A tree that was cloned before the child entered its mount namespace.
    Prepared(&'a PreparedBindMount),
}

/// One bind-mount operation.
#[derive(Clone, Copy, Debug)]
pub struct BindMount<'a> {
    pub source: BindMountSource<'a>,
    pub dst_rel: ZStr<'a>,
    pub src_is_dir: bool,
    pub read_only: bool,
}

/// One tmpfs mount operation.
#[derive(Clone, Copy, Debug)]
pub struct TmpfsMount<'a> {
    pub dst_rel: ZStr<'a>,
    pub read_only: bool,
    pub size_bytes: Option<u64>,
    pub mode: Option<u32>,
}

/// Proc mount `subset=` option.
#[derive(Clone, Copy, Debug, PartialEq, Eq, Structural)]
pub enum ProcSubset {
    Pid,
}

/// Proc mount `hidepid=` option.
#[derive(Clone, Copy, Debug, PartialEq, Eq, Structural)]
pub enum HidePid {
    Visible,
    Hidden,
    Invisible,
}

/// One procfs mount operation.
#[derive(Clone, Copy, Debug)]
pub struct ProcMount<'a> {
    pub dst_rel: ZStr<'a>,
    pub subset: Option<ProcSubset>,
    pub hidepid: Option<HidePid>,
}

/// One mqueue mount operation.
#[derive(Clone, Copy, Debug)]
pub struct MqueueMount<'a> {
    pub dst_rel: ZStr<'a>,
}

/// One file-content injection operation.
#[derive(Clone, Copy, Debug)]
pub struct FileMount<'a> {
    pub dst_rel: ZStr<'a>,
    pub content: &'a [u8],
    pub read_only: bool,
}

/// Borrowed view of a fully prepared exec request.
///
/// `argv` ends with `None`, which stands for the null pointer.
#[derive(Clone, Copy, Debug)]
pub struct ExecSpec<'a> {
    pub path: ZStr<'a>,
    pub argv: &'a [Option<ZStr<'a>>],
}

/// Environment policy applied in the child into caller-provided scratch space.
#[derive(Debug)]
pub struct EnvSpec<'a> {
    pub clear: bool,
    pub keep: &'a [ZStr<'a>],
    pub set: &'a [EnvBinding<'a>],
    pub storage: EnvStorage<'a>,
}

/// One environment variable assignment.
#[derive(Clone, Copy, Debug)]
pub struct EnvBinding<'a> {
    pub key: ZStr<'a>,
    pub value: ZStr<'a>,
}

/// Scratch buffers for building the final `envp`.
///
/// A `None` in `envp` stands for the null pointer.
#[derive(Debug)]
pub struct EnvStorage<'a> {
    pub envp: &'a mut [Option<ZStr<'a>>],
    pub bytes: &'a mut [u8],
}

/// One change to the descriptor table.
#[derive(Clone, Copy, Debug, PartialEq, Eq, Structural)]
pub enum FdAction {
    Close(i32),
    Dup2 { src: i32, dst: i32 },
}

/// Prepared file-descriptor policy.
#[derive(Clone, Copy, Debug)]
pub struct FdSpec<'a> {
    pub actions: &'a [FdAction],
    pub keep: &'a [i32],
    pub close_fds: bool,
}

impl<'a> Default for FdSpec<'a> {
    /// No actions, nothing kept, and every other descriptor closed.
    fn default() -> (r: Self)
        ensures
            r.actions@.len() == 0,
            r.keep@.len() == 0,
            r.close_fds,
    {
        FdSpec { actions: &[], keep: &[], close_fds: true }
    }
}

/// Precomputed resource limits.
#[derive(Clone, Copy, Debug)]
pub struct RlimitSpec<'a> {
    pub limits: &'a [RlimitEntry],
}

/// A soft and a hard limit.
#[derive(Clone, Copy, Debug, PartialEq, Eq, Structural)]
pub struct Rlimit {
    pub rlim_cur: u64,
    pub rlim_max: u64,
}

/// One `setrlimit` call.
#[derive(Clone, Copy, Debug, PartialEq, Eq, Structural)]
pub struct RlimitEntry {
    pub resource: i32,
    pub limit: Rlimit,
}

/// Prepared Landlock ruleset.
#[derive(Clone, Copy, Debug)]
pub struct LandlockSpec<'a> {
    pub min_abi: u32,
    pub ruleset: LandlockRulesetAttr,
    pub path_rules: &'a [LandlockPathRule<'a>],
    pub net_rules: &'a [LandlockNetRule],
}

/// Ruleset attributes passed to `landlock_create_ruleset`.
#[derive(Clone, Copy, Debug, PartialEq, Eq, Structural)]
pub struct LandlockRulesetAttr {
    pub handled_access_fs: u64,
    pub handled_access_net: u64,
}

impl Default for LandlockRulesetAttr {
    /// Nothing handled.
    fn default() -> (r: Self)
        ensures
            r == (LandlockRulesetAttr { handled_access_fs: 0, handled_access_net: 0 }),
    {
        LandlockRulesetAttr { handled_access_fs: 0, handled_access_net: 0 }
    }
}

/// One `LANDLOCK_RULE_PATH_BENEATH` rule.
#[derive(Clone, Copy, Debug)]
pub struct LandlockPathRule<'a> {
    pub path: ZStr<'a>,
    pub allowed_access: u64,
}

/// One `LANDLOCK_RULE_NET_PORT` rule.
#[derive(Clone, Copy, Debug, PartialEq, Eq, Structural)]
pub struct LandlockNetRule {
    pub port: u16,
    pub allowed_access: u64,
}

/// Prepared Linux capability state.
#[derive(Clone, Copy, Debug)]
pub struct CapsSpec<'a> {
    pub effective: [u32; 2],
    pub permitted: [u32; 2],
    pub inheritable: [u32; 2],
    pub bounding_drop: &'a [u32],
    pub clear_ambient: bool,
}

/// A classic-BPF program: the length that the kernel is told, and the
/// instructions.
#[derive(Clone, Copy, Debug)]
pub struct FilterProgram<'a> {
    pub len: u16,
    pub filter: &'a [libc::sock_filter],
}

/// Prepared seccomp filter installation request.
#[derive(Clone, Copy, Debug)]
pub struct SeccompSpec<'a> {
    pub program: FilterProgram<'a>,
    pub flags: u32,
}

/// An instruction of a classic-BPF program; `libc`'s type, carried through.
#[verifier::external_type_specification]
#[verifier::external_body]
pub struct ExSockFilter(libc::sock_filter);

} // verus!
