//! Ordered child-runtime execution.
//!
//! A [`Runtime`] says what the child does next. The program that holds it
//! performs the [`Command`] and hands back the [`Reply`], until it is told to
//! exit or the command has replaced the process.

pub mod laws;

use vstd::prelude::*;

use crate::bytes::ByteOrder;
use crate::child::{
    CapsSpec, ChildSpec, ExecSpec, FdAction, LandlockSpec, MountPlan, RlimitSpec, SeccompSpec,
};
use crate::completion::{
    COMPLETE_CAPABILITIES, COMPLETE_FD_CLOSURE, COMPLETE_MOUNT_PIVOT, COMPLETE_NO_NEW_PRIVS,
    COMPLETE_RLIMITS, COMPLETE_SECCOMP, COMPLETE_STAGE_MASK, COMPLETION_RECORD_LEN,
};
use crate::error::Errno;
use crate::mount::MountError;
use crate::report::{ChildFailure, Report, Reporter, Stage, CHILD_FAILURE_LEN};
use crate::sys::ENOENT;
use crate::zstr::ZStr;

verus! {

/// Exit status of a child whose setup failed.
pub const EXIT_SETUP_FAILED: i32 = 126;

/// Exit status of a child whose command does not exist.
pub const EXIT_COMMAND_NOT_FOUND: i32 = 127;

/// One step of the child, in the order in which they are taken.
#[derive(Clone, Copy, Debug, PartialEq, Eq, Structural)]
pub enum Phase {
    /// Ask for a signal when the parent dies.
    ParentDeathSignal,
    /// Find out whether the parent is still there.
    ParentCheck,
    /// Wait for the parent's byte on the sync pipe.
    SyncRead,
    /// Close the sync pipe.
    SyncClose,
    /// Set whether the process can be dumped.
    Dumpable,
    /// Build the filesystem and change the root.
    Mount,
    /// Set the hostname.
    Hostname,
    /// Bring up the loopback interface.
    Network,
    /// Apply the resource limits.
    Rlimit,
    /// Apply the Landlock ruleset.
    Landlock,
    /// Assemble the environment.
    Env,
    /// Apply the capability state.
    Capabilities,
    /// Start a new session.
    Setsid,
    /// Carry out the descriptor actions.
    FdActions,
    /// Close every descriptor that is not kept.
    FdClose,
    /// Restrict the time-stamp counter.
    Tsc,
    /// Set `NO_NEW_PRIVS`.
    NoNewPrivs,
    /// Refuse memory that is writable and executable.
    Mdwe,
    /// Install the seccomp filter.
    Seccomp,
    /// Change the working directory.
    Cwd,
    /// Write the completion record.
    CompletionWrite,
    /// Close the completion descriptor.
    CompletionClose,
    /// Execute the command.
    Exec,
}

impl Phase {
    /// The place of the phase in the order.
    pub open spec fn rank(self) -> int {
        match self {
            Phase::ParentDeathSignal => 0,
            Phase::ParentCheck => 1,
            Phase::SyncRead => 2,
            Phase::SyncClose => 3,
            Phase::Dumpable => 4,
            Phase::Mount => 5,
            Phase::Hostname => 6,
            Phase::Network => 7,
            Phase::Rlimit => 8,
            Phase::Landlock => 9,
            Phase::Env => 10,
            Phase::Capabilities => 11,
            Phase::Setsid => 12,
            Phase::FdActions => 13,
            Phase::FdClose => 14,
            Phase::Tsc => 15,
            Phase::NoNewPrivs => 16,
            Phase::Mdwe => 17,
            Phase::Seccomp => 18,
            Phase::Cwd => 19,
            Phase::CompletionWrite => 20,
            Phase::CompletionClose => 21,
            Phase::Exec => 22,
        }
    }

    /// The phase at a place of the order.
    pub open spec fn at(rank: int) -> Phase {
        if rank == 0 {
            Phase::ParentDeathSignal
        } else if rank == 1 {
            Phase::ParentCheck
        } else if rank == 2 {
            Phase::SyncRead
        } else if rank == 3 {
            Phase::SyncClose
        } else if rank == 4 {
            Phase::Dumpable
        } else if rank == 5 {
            Phase::Mount
        } else if rank == 6 {
            Phase::Hostname
        } else if rank == 7 {
            Phase::Network
        } else if rank == 8 {
            Phase::Rlimit
        } else if rank == 9 {
            Phase::Landlock
        } else if rank == 10 {
            Phase::Env
        } else if rank == 11 {
            Phase::Capabilities
        } else if rank == 12 {
            Phase::Setsid
        } else if rank == 13 {
            Phase::FdActions
        } else if rank == 14 {
            Phase::FdClose
        } else if rank == 15 {
            Phase::Tsc
        } else if rank == 16 {
            Phase::NoNewPrivs
        } else if rank == 17 {
            Phase::Mdwe
        } else if rank == 18 {
            Phase::Seccomp
        } else if rank == 19 {
            Phase::Cwd
        } else if rank == 20 {
            Phase::CompletionWrite
        } else if rank == 21 {
            Phase::CompletionClose
        } else {
            Phase::Exec
        }
    }

    /// Whether `child` asks for the phase.
    pub open spec fn enabled(self, child: &ChildSpec) -> bool {
        match self {
            Phase::ParentDeathSignal => child.process.pdeathsig is Some,
            Phase::ParentCheck => child.process.verify_parent_alive,
            Phase::SyncRead => child.sync_fd is Some,
            Phase::SyncClose => child.sync_fd is Some,
            Phase::Dumpable => true,
            Phase::Mount => child.mounts is Some,
            Phase::Hostname => child.hostname is Some,
            Phase::Network => child.bring_up_loopback,
            Phase::Rlimit => child.rlimits is Some,
            Phase::Landlock => child.landlock is Some,
            Phase::Env => child.env is Some,
            Phase::Capabilities => child.caps is Some,
            Phase::Setsid => child.process.new_session,
            Phase::FdActions => true,
            Phase::FdClose => child.fds.close_fds,
            Phase::Tsc => child.process.disable_tsc,
            Phase::NoNewPrivs => child.process.no_new_privs,
            Phase::Mdwe => child.process.mdwe_flags is Some,
            Phase::Seccomp => child.seccomp is Some,
            Phase::Cwd => child.cwd is Some,
            Phase::CompletionWrite => child.completion is Some,
            Phase::CompletionClose => child.completion is Some,
            Phase::Exec => true,
        }
    }

    /// The stage that a failure of the phase is reported under.
    pub open spec fn stage(self) -> Stage {
        match self {
            Phase::ParentDeathSignal => Stage::ParentDeathSignal,
            Phase::ParentCheck => Stage::ParentCheck,
            Phase::SyncRead => Stage::SyncWait,
            Phase::SyncClose => Stage::SyncWait,
            Phase::Dumpable => Stage::Dumpable,
            Phase::Mount => Stage::Mount,
            Phase::Hostname => Stage::Hostname,
            Phase::Network => Stage::Network,
            Phase::Rlimit => Stage::Rlimit,
            Phase::Landlock => Stage::Landlock,
            Phase::Env => Stage::Env,
            Phase::Capabilities => Stage::Capabilities,
            Phase::Setsid => Stage::Setsid,
            Phase::FdActions => Stage::Fd,
            Phase::FdClose => Stage::Fd,
            Phase::Tsc => Stage::Tsc,
            Phase::NoNewPrivs => Stage::NoNewPrivs,
            Phase::Mdwe => Stage::Mdwe,
            Phase::Seccomp => Stage::Seccomp,
            Phase::Cwd => Stage::Cwd,
            Phase::CompletionWrite => Stage::Completion,
            Phase::CompletionClose => Stage::Completion,
            Phase::Exec => Stage::Exec,
        }
    }

    /// The bit of completion evidence that the phase stands for, or zero.
    pub open spec fn bit(self) -> u32 {
        match self {
            Phase::Mount => COMPLETE_MOUNT_PIVOT,
            Phase::Rlimit => COMPLETE_RLIMITS,
            Phase::Capabilities => COMPLETE_CAPABILITIES,
            Phase::FdClose => COMPLETE_FD_CLOSURE,
            Phase::NoNewPrivs => COMPLETE_NO_NEW_PRIVS,
            Phase::Seccomp => COMPLETE_SECCOMP,
            _ => 0,
        }
    }

    fn following(self) -> (r: Phase)
        requires
            self != Phase::Exec,
        ensures
            r.rank() == self.rank() + 1,
    {
        match self {
            Phase::ParentDeathSignal => Phase::ParentCheck,
            Phase::ParentCheck => Phase::SyncRead,
            Phase::SyncRead => Phase::SyncClose,
            Phase::SyncClose => Phase::Dumpable,
            Phase::Dumpable => Phase::Mount,
            Phase::Mount => Phase::Hostname,
            Phase::Hostname => Phase::Network,
            Phase::Network => Phase::Rlimit,
            Phase::Rlimit => Phase::Landlock,
            Phase::Landlock => Phase::Env,
            Phase::Env => Phase::Capabilities,
            Phase::Capabilities => Phase::Setsid,
            Phase::Setsid => Phase::FdActions,
            Phase::FdActions => Phase::FdClose,
            Phase::FdClose => Phase::Tsc,
            Phase::Tsc => Phase::NoNewPrivs,
            Phase::NoNewPrivs => Phase::Mdwe,
            Phase::Mdwe => Phase::Seccomp,
            Phase::Seccomp => Phase::Cwd,
            Phase::Cwd => Phase::CompletionWrite,
            Phase::CompletionWrite => Phase::CompletionClose,
            Phase::CompletionClose => Phase::Exec,
            Phase::Exec => Phase::Exec,
        }
    }

    fn is_enabled(self, child: &ChildSpec) -> (r: bool)
        ensures
            r == self.enabled(child),
    {
        match self {
            Phase::ParentDeathSignal => child.process.pdeathsig.is_some(),
            Phase::ParentCheck => child.process.verify_parent_alive,
            Phase::SyncRead => child.sync_fd.is_some(),
            Phase::SyncClose => child.sync_fd.is_some(),
            Phase::Dumpable => true,
            Phase::Mount => child.mounts.is_some(),
            Phase::Hostname => child.hostname.is_some(),
            Phase::Network => child.bring_up_loopback,
            Phase::Rlimit => child.rlimits.is_some(),
            Phase::Landlock => child.landlock.is_some(),
            Phase::Env => child.env.is_some(),
            Phase::Capabilities => child.caps.is_some(),
            Phase::Setsid => child.process.new_session,
            Phase::FdActions => true,
            Phase::FdClose => child.fds.close_fds,
            Phase::Tsc => child.process.disable_tsc,
            Phase::NoNewPrivs => child.process.no_new_privs,
            Phase::Mdwe => child.process.mdwe_flags.is_some(),
            Phase::Seccomp => child.seccomp.is_some(),
            Phase::Cwd => child.cwd.is_some(),
            Phase::CompletionWrite => child.completion.is_some(),
            Phase::CompletionClose => child.completion.is_some(),
            Phase::Exec => true,
        }
    }

    fn failed_stage(self) -> (r: Stage)
        ensures
            r == self.stage(),
    {
        match self {
            Phase::ParentDeathSignal => Stage::ParentDeathSignal,
            Phase::ParentCheck => Stage::ParentCheck,
            Phase::SyncRead => Stage::SyncWait,
            Phase::SyncClose => Stage::SyncWait,
            Phase::Dumpable => Stage::Dumpable,
            Phase::Mount => Stage::Mount,
            Phase::Hostname => Stage::Hostname,
            Phase::Network => Stage::Network,
            Phase::Rlimit => Stage::Rlimit,
            Phase::Landlock => Stage::Landlock,
            Phase::Env => Stage::Env,
            Phase::Capabilities => Stage::Capabilities,
            Phase::Setsid => Stage::Setsid,
            Phase::FdActions => Stage::Fd,
            Phase::FdClose => Stage::Fd,
            Phase::Tsc => Stage::Tsc,
            Phase::NoNewPrivs => Stage::NoNewPrivs,
            Phase::Mdwe => Stage::Mdwe,
            Phase::Seccomp => Stage::Seccomp,
            Phase::Cwd => Stage::Cwd,
            Phase::CompletionWrite => Stage::Completion,
            Phase::CompletionClose => Stage::Completion,
            Phase::Exec => Stage::Exec,
        }
    }

    fn completion_bit(self) -> (r: u32)
        ensures
            r == self.bit(),
    {
        match self {
            Phase::Mount => COMPLETE_MOUNT_PIVOT,
            Phase::Rlimit => COMPLETE_RLIMITS,
            Phase::Capabilities => COMPLETE_CAPABILITIES,
            Phase::FdClose => COMPLETE_FD_CLOSURE,
            Phase::NoNewPrivs => COMPLETE_NO_NEW_PRIVS,
            Phase::Seccomp => COMPLETE_SECCOMP,
            _ => 0,
        }
    }
}

/// The first phase from `rank` on that `child` asks for. The command is always
/// executed.
pub open spec fn first_enabled(child: &ChildSpec, rank: int) -> Phase
    decreases 22 - rank,
{
    if rank >= 22 {
        Phase::Exec
    } else if Phase::at(rank).enabled(child) {
        Phase::at(rank)
    } else {
        first_enabled(child, rank + 1)
    }
}

/// The evidence that `phase` leaves once the child has come to `rank`.
pub open spec fn evidence_of(child: &ChildSpec, phase: Phase, rank: int) -> int {
    if phase.enabled(child) && phase.rank() < rank {
        phase.bit() as int
    } else {
        0
    }
}

/// The completion evidence of a child that has come to `rank`: the bits of the
/// required primitives that it was asked for and has finished.
pub open spec fn evidence(child: &ChildSpec, rank: int) -> int {
    evidence_of(child, Phase::Mount, rank) + evidence_of(child, Phase::Rlimit, rank) + evidence_of(
        child,
        Phase::Capabilities,
        rank,
    ) + evidence_of(child, Phase::FdClose, rank) + evidence_of(child, Phase::NoNewPrivs, rank)
        + evidence_of(child, Phase::Seccomp, rank)
}

/// Whether `action` names descriptor `fd`.
pub open spec fn touches(action: FdAction, fd: i32) -> bool {
    match action {
        FdAction::Close(closed) => closed == fd,
        FdAction::Dup2 { src, dst } => src == fd || dst == fd,
    }
}

/// Whether completion evidence, if it is asked for at all, can be given: its
/// descriptor and the status descriptor are open, distinct from each other and
/// from the sync descriptor, and left alone by every descriptor action, and
/// every required primitive is configured.
pub open spec fn completion_is_valid(child: &ChildSpec) -> bool {
    child.completion matches Some(sink) ==> {
        &&& sink.spec_fd() >= 0
        &&& child.status_fd matches Some(status_fd)
        &&& status_fd >= 0
        &&& child.sync_fd != Some(status_fd)
        &&& sink.spec_fd() != status_fd
        &&& child.sync_fd != Some(sink.spec_fd())
        &&& child.mounts is Some
        &&& child.rlimits is Some
        &&& child.caps is Some
        &&& child.fds.close_fds
        &&& child.process.no_new_privs
        &&& child.seccomp is Some
        &&& forall|i: int|
            0 <= i < child.fds.actions@.len() ==> !touches(
                #[trigger] child.fds.actions@[i],
                sink.spec_fd(),
            ) && !touches(child.fds.actions@[i], status_fd)
    }
}

/// Why the child gives up, and the status it exits with.
#[derive(Clone, Copy, Debug, PartialEq, Eq, Structural)]
pub struct Fault {
    pub stage: Stage,
    pub errno: i32,
    pub detail: i32,
    pub exit_code: i32,
}

/// Where the child stands.
#[derive(Clone, Copy, Debug, PartialEq, Eq, Structural)]
pub enum RunState {
    /// It is taking a step.
    Performing { phase: Phase },
    /// It is writing its failure record to the status descriptor.
    Status { fault: Fault },
    /// It is writing its failure to standard error.
    Stderr { fault: Fault },
    /// It is gone.
    Exited { code: i32 },
}

/// What came of a command.
#[derive(Clone, Copy, Debug)]
pub enum Reply {
    /// It succeeded.
    Done,
    /// It failed with an error number.
    Failed(Errno),
    /// The filesystem setup failed.
    MountFailed(MountError),
    /// The process id of the parent.
    Parent(i32),
}

/// Whether `reply` can be the answer to the command of `state`: only the
/// parent check is answered with a process id, only the filesystem setup with a
/// mount error, and a command that was executed does not answer.
pub open spec fn answers(reply: Reply, state: RunState) -> bool {
    match state {
        RunState::Performing { phase: Phase::ParentCheck } => reply is Parent,
        RunState::Performing { phase: Phase::Mount } => reply is Done || reply is MountFailed,
        RunState::Performing { phase: Phase::Exec } => reply is Failed,
        RunState::Exited { .. } => false,
        _ => reply is Done || reply is Failed,
    }
}

/// The failure of `phase` with error `errno`.
pub open spec fn fault_of(phase: Phase, errno: i32) -> Fault {
    Fault {
        stage: phase.stage(),
        errno,
        detail: if phase is FdClose {
            1
        } else {
            0
        },
        exit_code: if phase is Exec && errno == ENOENT {
            EXIT_COMMAND_NOT_FOUND
        } else {
            EXIT_SETUP_FAILED
        },
    }
}

/// A failure that no system call raised.
pub open spec fn logic_fault(stage: Stage, detail: i32) -> Fault {
    Fault { stage, errno: 0, detail, exit_code: EXIT_SETUP_FAILED }
}

/// The child gives up: it writes the failure record where there is a status
/// descriptor, and to standard error where there is none.
pub open spec fn giving_up(child: &ChildSpec, fault: Fault) -> RunState {
    if child.status_fd is Some {
        RunState::Status { fault }
    } else {
        RunState::Stderr { fault }
    }
}

/// The child comes to `rank`: it takes the next step that is asked for. It
/// gives up instead if that is the completion record and evidence is missing.
pub open spec fn arriving(child: &ChildSpec, rank: int) -> RunState {
    let phase = first_enabled(child, rank);
    if phase is CompletionWrite && evidence(child, phase.rank()) != COMPLETE_STAGE_MASK {
        giving_up(child, logic_fault(Stage::Completion, 2))
    } else {
        RunState::Performing { phase }
    }
}

/// Where the child stands at first.
pub open spec fn starting(child: &ChildSpec) -> RunState {
    if completion_is_valid(child) {
        arriving(child, 0)
    } else {
        giving_up(child, logic_fault(Stage::Completion, 1))
    }
}

/// Where the child stands after `reply`.
pub open spec fn stepping(child: &ChildSpec, state: RunState, reply: Reply) -> RunState {
    match state {
        RunState::Performing { phase } => match reply {
            Reply::Done => arriving(child, phase.rank() + 1),
            Reply::Failed(err) => giving_up(child, fault_of(phase, err.0)),
            Reply::MountFailed(err) => giving_up(
                child,
                Fault {
                    stage: phase.stage(),
                    errno: err.errno.0,
                    detail: err.detail,
                    exit_code: EXIT_SETUP_FAILED,
                },
            ),
            Reply::Parent(pid) => if pid == 1 {
                giving_up(child, logic_fault(Stage::ParentCheck, 1))
            } else {
                arriving(child, phase.rank() + 1)
            },
        },
        RunState::Status { fault } => if reply is Done {
            RunState::Exited { code: fault.exit_code }
        } else {
            RunState::Stderr { fault }
        },
        RunState::Stderr { fault } => RunState::Exited { code: fault.exit_code },
        RunState::Exited { code } => state,
    }
}

/// A step to be performed, with what it needs.
#[derive(Clone, Copy, Debug)]
pub enum Action<'s> {
    /// `prctl(PR_SET_PDEATHSIG, ..)`.
    SetParentDeathSignal(u64),
    /// `getppid()`.
    GetParent,
    /// Read one byte from the descriptor.
    ReadSyncByte(i32),
    /// Close the descriptor.
    CloseSync(i32),
    /// `prctl(PR_SET_DUMPABLE, ..)`.
    SetDumpable(u64),
    /// Run a [`crate::mount::MountSetup`] on the plan.
    SetupMounts(MountPlan<'s>),
    /// `sethostname(..)`.
    SetHostname(ZStr<'s>),
    /// Bring up the loopback interface.
    BringUpLoopback,
    /// Apply the limits.
    ApplyRlimits(RlimitSpec<'s>),
    /// Apply the ruleset.
    ApplyLandlock(LandlockSpec<'s>),
    /// Assemble the environment into the storage of the spec.
    PrepareEnv,
    /// Apply the capability state.
    ApplyCaps(CapsSpec<'s>),
    /// `setsid()`.
    NewSession,
    /// Carry out the actions in order.
    ApplyFdActions(&'s [FdAction]),
    /// Close every descriptor that is in neither list.
    CloseOtherFds { keep: &'s [i32], extra_keep: [i32; 2] },
    /// `prctl(PR_SET_TSC, PR_TSC_SIGSEGV, ..)`, where the machine has it.
    RestrictTsc,
    /// `prctl(PR_SET_NO_NEW_PRIVS, 1, ..)`.
    SetNoNewPrivs,
    /// `prctl(PR_SET_MDWE, ..)`.
    SetMdwe(u64),
    /// Install the filter.
    InstallSeccomp(SeccompSpec<'s>),
    /// `chdir(..)`.
    ChangeDir(ZStr<'s>),
    /// Write the whole record to the descriptor.
    WriteCompletion { fd: i32, record: [u8; COMPLETION_RECORD_LEN] },
    /// Close the descriptor.
    CloseCompletion(i32),
    /// `execve(..)`, with the assembled environment or with the current one.
    Execute { command: ExecSpec<'s>, assembled_env: bool },
}

/// What the program does next.
#[derive(Clone, Copy, Debug)]
pub enum Command<'s> {
    /// Take a step.
    Perform(Action<'s>),
    /// Write the failure record to the status descriptor.
    WriteStatus { fd: i32, record: [u8; CHILD_FAILURE_LEN] },
    /// Write the parts to standard error, whatever comes of each write.
    WriteStderr { parts: [&'s [u8]; 3] },
    /// Exit at once.
    Exit(i32),
}

/// Whether `action` is what `phase` takes for `child`.
pub open spec fn is_action(child: &ChildSpec, phase: Phase, action: Action) -> bool {
    match phase {
        Phase::ParentDeathSignal => action == Action::SetParentDeathSignal(
            child.process.pdeathsig->0 as u64,
        ),
        Phase::ParentCheck => action is GetParent,
        Phase::SyncRead => action == Action::ReadSyncByte(child.sync_fd->0),
        Phase::SyncClose => action == Action::CloseSync(child.sync_fd->0),
        Phase::Dumpable => action == Action::SetDumpable(
            if child.process.dumpable {
                1
            } else {
                0
            },
        ),
        Phase::Mount => action == Action::SetupMounts(child.mounts->0),
        Phase::Hostname => action == Action::SetHostname(child.hostname->0),
        Phase::Network => action is BringUpLoopback,
        Phase::Rlimit => action == Action::ApplyRlimits(child.rlimits->0),
        Phase::Landlock => action == Action::ApplyLandlock(child.landlock->0),
        Phase::Env => action is PrepareEnv,
        Phase::Capabilities => action == Action::ApplyCaps(child.caps->0),
        Phase::Setsid => action is NewSession,
        Phase::FdActions => action == Action::ApplyFdActions(child.fds.actions),
        Phase::FdClose => action matches Action::CloseOtherFds { keep, extra_keep } && keep
            == child.fds.keep && extra_keep@ == seq![
            (if child.status_fd is Some {
                child.status_fd->0
            } else {
                -1i32
            }),
            (if child.completion is Some {
                child.completion->0.spec_fd()
            } else {
                -1i32
            }),
        ],
        Phase::Tsc => action is RestrictTsc,
        Phase::NoNewPrivs => action is SetNoNewPrivs,
        Phase::Mdwe => action == Action::SetMdwe(child.process.mdwe_flags->0),
        Phase::Seccomp => action == Action::InstallSeccomp(child.seccomp->0),
        Phase::Cwd => action == Action::ChangeDir(child.cwd->0),
        Phase::CompletionWrite => action matches Action::WriteCompletion { fd, record } && fd
            == child.completion->0.spec_fd() && record@ == crate::completion::record_bytes(
            child.completion->0.spec_binding(),
            COMPLETE_STAGE_MASK,
        ),
        Phase::CompletionClose => action == Action::CloseCompletion(
            child.completion->0.spec_fd(),
        ),
        Phase::Exec => action == (Action::Execute {
            command: child.command,
            assembled_env: child.env is Some,
        }),
    }
}

/// The failure record of `fault`.
pub open spec fn failure_of(fault: Fault) -> ChildFailure {
    ChildFailure {
        version: ChildFailure::VERSION,
        stage: fault.stage.number(),
        errno: fault.errno,
        detail: fault.detail,
        exit_code: fault.exit_code,
    }
}

/// What is said of `fault` on standard error, part by part.
pub open spec fn fallback_of(child: &ChildSpec, fault: Fault) -> Seq<Seq<u8>> {
    if fault.stage is Exec {
        seq![
            vstd::utf8::encode_utf8(crate::report::exec_prefix(Errno(fault.errno))),
            child.command.path@,
            vstd::utf8::encode_utf8("\n"@),
        ]
    } else {
        seq![
            vstd::utf8::encode_utf8(fault.stage.fallback_text()),
            Seq::<u8>::empty(),
            Seq::<u8>::empty(),
        ]
    }
}

/// Whether `command` is what is done in `state`.
pub open spec fn is_command(
    child: &ChildSpec,
    order: ByteOrder,
    state: RunState,
    command: Command,
) -> bool {
    match state {
        RunState::Performing { phase } => command matches Command::Perform(action) && is_action(
            child,
            phase,
            action,
        ),
        RunState::Status { fault } => command matches Command::WriteStatus { fd, record }
            && child.status_fd == Some(fd) && record@ == failure_of(fault).layout(order),
        RunState::Stderr { fault } => command matches Command::WriteStderr { parts } && parts@.map(
            |i: int, part: &[u8]| part@,
        ) == fallback_of(child, fault),
        RunState::Exited { code } => command == Command::Exit(code),
    }
}

proof fn lemma_phase_at(phase: Phase)
    ensures
        0 <= phase.rank() <= 22,
        Phase::at(phase.rank()) == phase,
{
}

/// The first enabled phase is enabled, and none before it is.
pub proof fn lemma_first_enabled(child: &ChildSpec, rank: int)
    requires
        0 <= rank <= 22,
    ensures
        first_enabled(child, rank).enabled(child),
        first_enabled(child, rank).rank() >= rank,
        forall|p: Phase|
            rank <= #[trigger] p.rank() < first_enabled(child, rank).rank() ==> !p.enabled(child),
    decreases 22 - rank,
{
    if rank < 22 && !Phase::at(rank).enabled(child) {
        lemma_first_enabled(child, rank + 1);
        assert forall|p: Phase|
            rank <= #[trigger] p.rank() < first_enabled(child, rank).rank() implies !p.enabled(
            child,
        ) by {
            lemma_phase_at(p);
        }
    }
}

/// Nothing is added to the evidence by phases that are not enabled.
proof fn lemma_evidence_skips(child: &ChildSpec, from: int, to: int)
    requires
        from <= to,
        forall|p: Phase| from <= #[trigger] p.rank() < to ==> !p.enabled(child),
    ensures
        evidence(child, from) == evidence(child, to),
{
    let _ = Phase::Mount.rank();
    let _ = Phase::Rlimit.rank();
    let _ = Phase::Capabilities.rank();
    let _ = Phase::FdClose.rank();
    let _ = Phase::NoNewPrivs.rank();
    let _ = Phase::Seccomp.rank();
}

/// What an enabled phase adds to the evidence.
proof fn lemma_evidence_grows(child: &ChildSpec, phase: Phase)
    requires
        phase.enabled(child),
    ensures
        evidence(child, phase.rank() + 1) == evidence(child, phase.rank()) + phase.bit(),
        0 <= evidence(child, phase.rank()) <= COMPLETE_STAGE_MASK,
{
}

fn touched(action: FdAction, fd: i32) -> (r: bool)
    ensures
        r == touches(action, fd),
{
    match action {
        FdAction::Close(closed) => closed == fd,
        FdAction::Dup2 { src, dst } => src == fd || dst == fd,
    }
}

/// Whether completion evidence, if it is asked for at all, can be given.
pub fn check_completion(child: &ChildSpec) -> (r: bool)
    ensures
        r == completion_is_valid(child),
{
    let sink = match child.completion {
        Some(sink) => sink,
        None => return true,
    };
    let status_fd: i32 = match child.status_fd {
        Some(fd) => fd,
        None => return false,
    };
    let sync_is_apart: bool = match child.sync_fd {
        Some(fd) => fd != status_fd && fd != sink.fd(),
        None => true,
    };
    if !(sink.fd() >= 0 && status_fd >= 0 && sync_is_apart && sink.fd() != status_fd
        && child.mounts.is_some() && child.rlimits.is_some() && child.caps.is_some()
        && child.fds.close_fds && child.process.no_new_privs && child.seccomp.is_some()) {
        return false;
    }
    let actions = child.fds.actions;
    let mut i: usize = 0;
    while i < actions.len()
        invariant
            i <= actions@.len(),
            actions == child.fds.actions,
            child.completion == Some(sink),
            child.status_fd == Some(status_fd),
            forall|j: int|
                0 <= j < i ==> !touches(#[trigger] actions@[j], sink.spec_fd()) && !touches(
                    actions@[j],
                    status_fd,
                ),
        decreases actions@.len() - i,
    {
        if touched(actions[i], sink.fd()) || touched(actions[i], status_fd) {
            assert(touches(child.fds.actions@[i as int], sink.spec_fd()) || touches(
                child.fds.actions@[i as int],
                status_fd,
            ));
            return false;
        }
        i += 1;
    }
    true
}

/// The child's progress through its setup.
#[derive(Clone, Copy, Debug)]
pub struct Runtime {
    order: ByteOrder,
    state: RunState,
    completed: u32,
}

impl Runtime {
    /// Where the child stands.
    pub closed spec fn state(self) -> RunState {
        self.state
    }

    /// The byte order in which failure records are written.
    pub closed spec fn order(self) -> ByteOrder {
        self.order
    }

    /// Whether this is the progress of a child that carries out `child`.
    pub closed spec fn wf(self, child: &ChildSpec) -> bool {
        match self.state {
            RunState::Performing { phase } => {
                &&& phase.enabled(child)
                &&& self.completed == evidence(child, phase.rank())
                &&& phase is CompletionWrite ==> self.completed == COMPLETE_STAGE_MASK
            },
            RunState::Status { fault } => child.status_fd is Some && (fault.stage is Exec
                ==> fault.detail == 0),
            RunState::Stderr { fault } => fault.stage is Exec ==> fault.detail == 0,
            RunState::Exited { .. } => true,
        }
    }

    /// Starts to carry out `child`, on a machine with the given byte order.
    pub fn start<'s>(child: &'s ChildSpec, order: ByteOrder) -> (r: (Runtime, Command<'s>))
        ensures
            r.0.wf(child),
            r.0.order() == order,
            r.0.state() == starting(child),
            is_command(child, order, starting(child), r.1),
    {
        let mut runtime = Runtime {
            order,
            state: RunState::Performing { phase: Phase::ParentDeathSignal },
            completed: 0,
        };
        if check_completion(child) {
            runtime.arrive(child, Phase::ParentDeathSignal);
        } else {
            runtime.give_up(
                child,
                Fault {
                    stage: Stage::Completion,
                    errno: 0,
                    detail: 1,
                    exit_code: EXIT_SETUP_FAILED,
                },
            );
        }
        let command = runtime.command(child);
        (runtime, command)
    }

    /// Goes on after `reply`, the answer to the command that was given last.
    pub fn resume<'s>(&mut self, child: &'s ChildSpec, reply: Reply) -> (r: Command<'s>)
        requires
            old(self).wf(child),
            answers(reply, old(self).state()),
        ensures
            final(self).wf(child),
            final(self).order() == old(self).order(),
            final(self).state() == stepping(child, old(self).state(), reply),
            is_command(child, old(self).order(), final(self).state(), r),
    {
        match self.state {
            RunState::Performing { phase } => match reply {
                Reply::Done => self.advance(child, phase),
                Reply::Failed(err) => self.give_up(
                    child,
                    Fault {
                        stage: phase.failed_stage(),
                        errno: err.0,
                        detail: if phase == Phase::FdClose {
                            1
                        } else {
                            0
                        },
                        exit_code: if phase == Phase::Exec && err.0 == ENOENT {
                            EXIT_COMMAND_NOT_FOUND
                        } else {
                            EXIT_SETUP_FAILED
                        },
                    },
                ),
                Reply::MountFailed(err) => self.give_up(
                    child,
                    Fault {
                        stage: phase.failed_stage(),
                        errno: err.errno.0,
                        detail: err.detail,
                        exit_code: EXIT_SETUP_FAILED,
                    },
                ),
                Reply::Parent(pid) => if pid == 1 {
                    self.give_up(
                        child,
                        Fault {
                            stage: Stage::ParentCheck,
                            errno: 0,
                            detail: 1,
                            exit_code: EXIT_SETUP_FAILED,
                        },
                    )
                } else {
                    self.advance(child, phase)
                },
            },
            RunState::Status { fault } => {
                self.state = match reply {
                    Reply::Done => RunState::Exited { code: fault.exit_code },
                    _ => RunState::Stderr { fault },
                };
            },
            RunState::Stderr { fault } => {
                self.state = RunState::Exited { code: fault.exit_code };
            },
            RunState::Exited { .. } => {},
        }
        self.command(child)
    }

    fn advance(&mut self, child: &ChildSpec, phase: Phase)
        requires
            phase.enabled(child),
            !(phase is Exec),
            old(self).completed == evidence(child, phase.rank()),
        ensures
            final(self).wf(child),
            final(self).order == old(self).order,
            final(self).state == arriving(child, phase.rank() + 1),
    {
        let before: u32 = self.completed;
        let bit: u32 = phase.completion_bit();
        proof {
            lemma_evidence_grows(child, phase);
            lemma_add_bit(child, phase, before);
        }
        self.completed = before | bit;
        self.arrive(child, phase.following());
    }

    fn arrive(&mut self, child: &ChildSpec, from: Phase)
        requires
            old(self).completed == evidence(child, from.rank()),
        ensures
            final(self).wf(child),
            final(self).order == old(self).order,
            final(self).state == arriving(child, from.rank()),
    {
        let mut phase: Phase = from;
        proof {
            lemma_phase_at(from);
        }
        while !phase.is_enabled(child)
            invariant
                0 <= from.rank() <= phase.rank() <= 22,
                first_enabled(child, phase.rank()) == first_enabled(child, from.rank()),
            decreases 22 - phase.rank(),
        {
            proof {
                lemma_phase_at(phase);
            }
            phase = phase.following();
        }
        proof {
            lemma_phase_at(phase);
            lemma_first_enabled(child, from.rank());
            lemma_evidence_skips(child, from.rank(), phase.rank());
        }
        if phase == Phase::CompletionWrite && self.completed != COMPLETE_STAGE_MASK {
            self.give_up(
                child,
                Fault {
                    stage: Stage::Completion,
                    errno: 0,
                    detail: 2,
                    exit_code: EXIT_SETUP_FAILED,
                },
            );
        } else {
            self.state = RunState::Performing { phase };
        }
    }

    fn give_up(&mut self, child: &ChildSpec, fault: Fault)
        requires
            fault.stage is Exec ==> fault.detail == 0,
        ensures
            final(self).wf(child),
            final(self).order == old(self).order,
            final(self).state == giving_up(child, fault),
    {
        self.state = match child.status_fd {
            Some(_) => RunState::Status { fault },
            None => RunState::Stderr { fault },
        };
    }

    fn command<'s>(&self, child: &'s ChildSpec) -> (r: Command<'s>)
        requires
            self.wf(child),
        ensures
            is_command(child, self.order, self.state, r),
    {
        match self.state {
            RunState::Performing { phase } => Command::Perform(
                action(child, phase, self.completed),
            ),
            RunState::Status { fault } => {
                let report = report(child, fault);
                Command::WriteStatus {
                    fd: child.status_fd.unwrap(),
                    record: report.failure.to_bytes(self.order),
                }
            },
            RunState::Stderr { fault } => {
                let report = report(child, fault);
                assert(report.fallback@.map(|i: int, part: &[u8]| part@) =~= fallback_of(
                    child,
                    fault,
                ));
                Command::WriteStderr { parts: report.fallback }
            },
            RunState::Exited { code } => Command::Exit(code),
        }
    }
}

proof fn lemma_add_bit(child: &ChildSpec, phase: Phase, before: u32)
    requires
        phase.enabled(child),
        before == evidence(child, phase.rank()),
    ensures
        before | phase.bit() == before + phase.bit(),
{
    assert(before | 0 == before) by (bit_vector);
    assert(before < 2 ==> before | 2 == before + 2) by (bit_vector);
    assert(before < 4 ==> before | 4 == before + 4) by (bit_vector);
    assert(before < 8 ==> before | 8 == before + 8) by (bit_vector);
    assert(before < 16 ==> before | 16 == before + 16) by (bit_vector);
    assert(before < 32 ==> before | 32 == before + 32) by (bit_vector);
    assert(0u32 | 1 == 1) by (bit_vector);
}

fn report<'s>(child: &'s ChildSpec, fault: Fault) -> (r: Report<'s>)
    requires
        fault.stage is Exec ==> fault.detail == 0,
    ensures
        r.failure == failure_of(fault),
        r.status_fd == child.status_fd,
        r.fallback[0]@ == fallback_of(child, fault)[0],
        r.fallback[1]@ == fallback_of(child, fault)[1],
        r.fallback[2]@ == fallback_of(child, fault)[2],
{
    let reporter = Reporter::new(child.status_fd);
    if fault.stage == Stage::Exec {
        reporter.report_exec_errno(Errno(fault.errno), fault.exit_code, child.command.path)
    } else {
        let r = reporter.report_errno(
            fault.stage,
            Errno(fault.errno),
            fault.detail,
            fault.exit_code,
        );
        assert(r.fallback[1]@ =~= Seq::<u8>::empty());
        assert(r.fallback[2]@ =~= Seq::<u8>::empty());
        r
    }
}

fn action<'s>(child: &'s ChildSpec, phase: Phase, completed: u32) -> (r: Action<'s>)
    requires
        phase.enabled(child),
        phase is CompletionWrite ==> completed == COMPLETE_STAGE_MASK,
    ensures
        is_action(child, phase, r),
{
    match phase {
        Phase::ParentDeathSignal => Action::SetParentDeathSignal(
            child.process.pdeathsig.unwrap() as u64,
        ),
        Phase::ParentCheck => Action::GetParent,
        Phase::SyncRead => Action::ReadSyncByte(child.sync_fd.unwrap()),
        Phase::SyncClose => Action::CloseSync(child.sync_fd.unwrap()),
        Phase::Dumpable => Action::SetDumpable(
            if child.process.dumpable {
                1
            } else {
                0
            },
        ),
        Phase::Mount => Action::SetupMounts(child.mounts.unwrap()),
        Phase::Hostname => Action::SetHostname(child.hostname.unwrap()),
        Phase::Network => Action::BringUpLoopback,
        Phase::Rlimit => Action::ApplyRlimits(child.rlimits.unwrap()),
        Phase::Landlock => Action::ApplyLandlock(child.landlock.unwrap()),
        Phase::Env => Action::PrepareEnv,
        Phase::Capabilities => Action::ApplyCaps(child.caps.unwrap()),
        Phase::Setsid => Action::NewSession,
        Phase::FdActions => Action::ApplyFdActions(child.fds.actions),
        Phase::FdClose => {
            let status: i32 = match child.status_fd {
                Some(fd) => fd,
                None => -1,
            };
            let completion: i32 = match child.completion {
                Some(sink) => sink.fd(),
                None => -1,
            };
            let extra_keep: [i32; 2] = [status, completion];
            assert(extra_keep@ =~= seq![status, completion]);
            Action::CloseOtherFds { keep: child.fds.keep, extra_keep }
        },
        Phase::Tsc => Action::RestrictTsc,
        Phase::NoNewPrivs => Action::SetNoNewPrivs,
        Phase::Mdwe => Action::SetMdwe(child.process.mdwe_flags.unwrap()),
        Phase::Seccomp => Action::InstallSeccomp(child.seccomp.unwrap()),
        Phase::Cwd => Action::ChangeDir(child.cwd.unwrap()),
        Phase::CompletionWrite => {
            let sink = child.completion.unwrap();
            Action::WriteCompletion { fd: sink.fd(), record: sink.record(completed) }
        },
        Phase::CompletionClose => Action::CloseCompletion(child.completion.unwrap().fd()),
        Phase::Exec => Action::Execute {
            command: child.command,
            assembled_env: child.env.is_some(),
        },
    }
}

} // verus!
