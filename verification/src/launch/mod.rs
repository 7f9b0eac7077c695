//! Running a sandbox once: the parent starts a child, sets up its ids, lets it
//! go and supervises it.
//!
//! A [`Launch`] says what is done next, on both sides of the fork.

pub mod laws;

use vstd::prelude::*;

use crate::bytes::ByteOrder;
use crate::clone::{clone_args, do_clone3, ChildHandle, CloneArgs, CloneResult};
use crate::config::Sandbox;
use crate::error::{Cause, Errno, Error, SetupStage};
use crate::failure::decode_child_failure;
use crate::idmap::IdMapFile;
use crate::report::CHILD_FAILURE_LEN;
use crate::sys::EBADF;

verus! {

/// An end of one of the two control pipes.
#[derive(Clone, Copy, Debug, PartialEq, Eq, Structural)]
pub enum PipeEnd {
    /// Where the child waits for its parent.
    SyncRead,
    /// Where the parent lets the child go.
    SyncWrite,
    /// Where the parent reads of a failure.
    StatusRead,
    /// Where the child tells of a failure. It is closed on execution.
    StatusWrite,
}

/// What can go wrong in the parent.
#[derive(Clone, Copy, Debug, PartialEq, Eq, Structural)]
pub enum Failure {
    /// There is no sync pipe.
    SyncPipe,
    /// There is no status pipe.
    StatusPipe,
    /// The signals cannot be blocked.
    Block,
    /// The child cannot be started.
    Clone,
    /// There is no descriptor of the child.
    PidFd,
    /// A file of the child cannot be written.
    IdMap(IdMapFile),
    /// The child cannot be let go.
    Release,
    /// The child cannot be supervised.
    Supervision,
    /// The child failed.
    Child,
}

/// What a launch comes to.
#[derive(Clone, Copy, Debug, PartialEq, Eq, Structural)]
pub enum Verdict {
    /// The command was executed, and ended with the given status.
    Success { code: i32 },
    /// Something went wrong.
    Failure(Failure),
}

/// What follows once the sync pipe is closed.
#[derive(Clone, Copy, Debug, PartialEq, Eq, Structural)]
pub enum AfterSync {
    /// The child, which was not let go, is awaited.
    Reap(IdMapFile),
    /// The child is supervised.
    Supervise,
    /// The launch is given up.
    GiveUp,
}

/// Where a launch stands.
#[derive(Clone, Copy, Debug, PartialEq, Eq, Structural)]
pub enum LaunchState {
    /// The sync pipe is being opened.
    OpeningSync,
    /// The status pipe is being opened.
    OpeningStatus,
    /// The signals are being blocked.
    Blocking,
    /// The child is being started.
    Cloning,
    /// The child is unblocking the signals.
    ChildUnblocking,
    /// The child is closing the ends that are its parent's.
    ChildClosing,
    /// The child is carrying out its spec.
    ChildRunning,
    /// The parent is closing the ends that are the child's.
    ParentClosing,
    /// The parent is writing a file of the child.
    Mapping { file: IdMapFile },
    /// The parent is letting the child go.
    Releasing,
    /// The parent is closing the sync pipe.
    ClosingSync { after: AfterSync },
    /// The parent is waiting for the end of a child that was not let go.
    Reaping { file: IdMapFile },
    /// The parent is supervising the child.
    Supervising,
    /// The parent is reading from the status pipe.
    ReadingStatus { code: i32 },
    /// The parent is unblocking the signals.
    Unblocking { verdict: Verdict },
    /// The parent is done.
    Returned { verdict: Verdict },
}

/// What came of a command.
#[derive(Debug)]
pub enum LaunchReply {
    /// It succeeded, or it does not matter whether it did.
    Done,
    /// It failed, for the given reason.
    Failed(Cause),
    /// The signals could not be blocked, for the given reason.
    BlockFailed(String),
    /// What `clone3` answered, in the parent and in the child.
    Cloned(CloneResult),
    /// What the supervision returned.
    Supervised(Result<i32, Error>),
    /// How many bytes were read from the status pipe, and the bytes.
    Status { read: isize, record: [u8; CHILD_FAILURE_LEN] },
}

/// Whether `reply` can be the answer to the command of `state`.
pub open spec fn answers(reply: LaunchReply, state: LaunchState) -> bool {
    match state {
        LaunchState::OpeningSync
        | LaunchState::OpeningStatus
        | LaunchState::Mapping { .. }
        | LaunchState::Releasing => reply is Done || reply is Failed,
        LaunchState::Blocking => reply is Done || reply is BlockFailed,
        LaunchState::Cloning => reply is Cloned,
        LaunchState::ChildRunning | LaunchState::Returned { .. } => false,
        LaunchState::Supervising => reply is Supervised,
        LaunchState::ReadingStatus { .. } => reply is Status,
        _ => reply is Done,
    }
}

/// What goes wrong with `reply`, if anything does.
pub open spec fn failure_of(state: LaunchState, reply: LaunchReply, order: ByteOrder) -> Option<
    Failure,
> {
    match reply {
        LaunchReply::Failed(_) => match state {
            LaunchState::OpeningSync => Some(Failure::SyncPipe),
            LaunchState::OpeningStatus => Some(Failure::StatusPipe),
            LaunchState::Mapping { file } => Some(Failure::IdMap(file)),
            _ => Some(Failure::Release),
        },
        LaunchReply::BlockFailed(_) => Some(Failure::Block),
        LaunchReply::Cloned(answer) => if answer.ret == -1 {
            Some(Failure::Clone)
        } else if answer.ret != 0 && answer.pidfd < 0 {
            Some(Failure::PidFd)
        } else {
            None
        },
        LaunchReply::Supervised(result) => if result is Err {
            Some(Failure::Supervision)
        } else {
            None
        },
        LaunchReply::Status { read, record } => if crate::failure::says_failed(
            read,
            record@,
            order,
        ) {
            Some(Failure::Child)
        } else {
            None
        },
        LaunchReply::Done => None,
    }
}

/// Where a launch stands once something has gone wrong. Before the signals are
/// blocked, that is the end of it. Afterwards they are unblocked on every way
/// out, and a child that was not let go is awaited first.
pub open spec fn failing(failure: Failure) -> LaunchState {
    match failure {
        Failure::SyncPipe | Failure::StatusPipe | Failure::Block => LaunchState::Returned {
            verdict: Verdict::Failure(failure),
        },
        Failure::IdMap(file) => LaunchState::ClosingSync { after: AfterSync::Reap(file) },
        Failure::Release => LaunchState::ClosingSync { after: AfterSync::GiveUp },
        Failure::Clone
        | Failure::PidFd
        | Failure::Supervision
        | Failure::Child => LaunchState::Unblocking { verdict: Verdict::Failure(failure) },
    }
}

/// Where a launch stands after a command that went well.
pub open spec fn succeeding(state: LaunchState, reply: LaunchReply) -> LaunchState {
    match state {
        LaunchState::OpeningSync => LaunchState::OpeningStatus,
        LaunchState::OpeningStatus => LaunchState::Blocking,
        LaunchState::Blocking => LaunchState::Cloning,
        LaunchState::Cloning => if reply->Cloned_0.ret == 0 {
            LaunchState::ChildUnblocking
        } else {
            LaunchState::ParentClosing
        },
        LaunchState::ChildUnblocking => LaunchState::ChildClosing,
        LaunchState::ChildClosing => LaunchState::ChildRunning,
        LaunchState::ChildRunning => state,
        LaunchState::ParentClosing => LaunchState::Mapping { file: IdMapFile::Setgroups },
        LaunchState::Mapping { file } => match file.spec_next() {
            Some(next) => LaunchState::Mapping { file: next },
            None => LaunchState::Releasing,
        },
        LaunchState::Releasing => LaunchState::ClosingSync { after: AfterSync::Supervise },
        LaunchState::ClosingSync { after } => match after {
            AfterSync::Reap(file) => LaunchState::Reaping { file },
            AfterSync::Supervise => LaunchState::Supervising,
            AfterSync::GiveUp => LaunchState::Unblocking {
                verdict: Verdict::Failure(Failure::Release),
            },
        },
        LaunchState::Reaping { file } => LaunchState::Unblocking {
            verdict: Verdict::Failure(Failure::IdMap(file)),
        },
        LaunchState::Supervising => LaunchState::ReadingStatus {
            code: reply->Supervised_0->Ok_0,
        },
        LaunchState::ReadingStatus { code } => LaunchState::Unblocking {
            verdict: Verdict::Success { code },
        },
        LaunchState::Unblocking { verdict } => LaunchState::Returned { verdict },
        LaunchState::Returned { .. } => state,
    }
}

/// Where a launch stands after `reply`.
pub open spec fn stepping(state: LaunchState, reply: LaunchReply, order: ByteOrder) -> LaunchState {
    match failure_of(state, reply, order) {
        Some(failure) => failing(failure),
        None => succeeding(state, reply),
    }
}

/// Whether `error` says that `stage` failed, as `context` puts it.
pub open spec fn is_setup_error(
    error: Error,
    stage: SetupStage,
    context: Seq<char>,
    cause: Cause,
) -> bool {
    &&& error matches Error::Setup { stage: s, context: said, source }
    &&& s == stage
    &&& said@ == context
    &&& source == cause
}

/// Whether `error` tells of `failure`, which came about with `reply`.
pub open spec fn tells_of(
    error: Error,
    failure: Failure,
    reply: LaunchReply,
    child: Option<ChildHandle>,
    order: ByteOrder,
    sandbox: Sandbox,
) -> bool {
    match failure {
        Failure::SyncPipe => is_setup_error(
            error,
            SetupStage::Clone,
            "pipe() failed"@,
            reply->Failed_0,
        ),
        Failure::StatusPipe => is_setup_error(
            error,
            SetupStage::Clone,
            "pipe2(O_CLOEXEC) failed"@,
            reply->Failed_0,
        ),
        Failure::Block => error matches Error::Other(message) && message@
            == "failed to block signals: "@ + reply->BlockFailed_0@,
        Failure::Clone => crate::clone::is_clone_error(
            error,
            "clone3 failed"@,
            reply->Cloned_0.errno,
        ),
        Failure::PidFd => crate::clone::is_clone_error(
            error,
            "clone3 succeeded but CLONE_PIDFD did not return a valid fd"@,
            Errno(EBADF),
        ),
        Failure::IdMap(file) => file.is_failure(child->0.pid, reply->Failed_0, error),
        Failure::Release => is_setup_error(
            error,
            SetupStage::Clone,
            "failed to signal child via sync pipe"@,
            reply->Failed_0,
        ),
        Failure::Supervision => reply->Supervised_0 == Err::<i32, Error>(error),
        Failure::Child => forall|record: crate::report::ChildFailure| #[trigger]
            record.layout(order) == reply->record@ ==> crate::failure::tells_of(
                error,
                record,
                sandbox,
            ),
    }
}

/// What the program does next.
#[derive(Debug)]
pub enum LaunchCommand {
    /// Open the sync pipe.
    OpenSyncPipe,
    /// Open the status pipe, both ends closed on execution.
    OpenStatusPipe,
    /// Block the signals of [`crate::supervise::supervision_signal_mask`].
    BlockSignals,
    /// Start the child.
    Clone(CloneArgs),
    /// Unblock the signals, whatever comes of it.
    UnblockSignals,
    /// Close the two ends.
    Close([PipeEnd; 2]),
    /// Carry out the spec, with the two ends as its control pipes.
    RunChild { sync: PipeEnd, status: PipeEnd },
    /// Write the content to the file.
    WriteFile { path: String, content: String },
    /// Write one byte to the sync pipe.
    Release,
    /// Close the parent's end of the sync pipe.
    CloseSync,
    /// Wait for the child, whatever comes of it.
    Reap,
    /// Supervise the child, with a [`crate::supervise::Supervision`].
    Supervise { forward_signals: bool },
    /// Read once from the status pipe, as much as a failure record takes.
    ReadStatus,
    /// Nothing: return the result.
    Return(Result<i32, Error>),
}

/// Whether `command` is what is done in `state`.
pub open spec fn is_command(
    sandbox: Sandbox,
    child: Option<ChildHandle>,
    state: LaunchState,
    command: LaunchCommand,
) -> bool {
    match state {
        LaunchState::OpeningSync => command is OpenSyncPipe,
        LaunchState::OpeningStatus => command is OpenStatusPipe,
        LaunchState::Blocking => command is BlockSignals,
        LaunchState::Cloning => command matches LaunchCommand::Clone(args) && args.flags
            == crate::clone::namespace_flags(sandbox.namespaces) + crate::sys::CLONE_PIDFD
            && args.exit_signal == crate::sys::SIGCHLD,
        LaunchState::ChildUnblocking => command is UnblockSignals,
        LaunchState::ChildClosing => command matches LaunchCommand::Close(ends) && ends@ == seq![
            PipeEnd::SyncWrite,
            PipeEnd::StatusRead,
        ],
        LaunchState::ChildRunning => command == (LaunchCommand::RunChild {
            sync: PipeEnd::SyncRead,
            status: PipeEnd::StatusWrite,
        }),
        LaunchState::ParentClosing => command matches LaunchCommand::Close(ends) && ends@ == seq![
            PipeEnd::SyncRead,
            PipeEnd::StatusWrite,
        ],
        LaunchState::Mapping { file } => command matches LaunchCommand::WriteFile { path, content }
            && path@ == file.spec_path(child->0.pid) && content@ == file.spec_content(
            sandbox.uid_map->0,
            sandbox.gid_map->0,
        ),
        LaunchState::Releasing => command is Release,
        LaunchState::ClosingSync { .. } => command is CloseSync,
        LaunchState::Reaping { .. } => command is Reap,
        LaunchState::Supervising => command == (LaunchCommand::Supervise {
            forward_signals: sandbox.process.forward_signals,
        }),
        LaunchState::ReadingStatus { .. } => command is ReadStatus,
        LaunchState::Unblocking { .. } => command is UnblockSignals,
        LaunchState::Returned { verdict } => command matches LaunchCommand::Return(result) && match
            verdict {
            Verdict::Success { code } => result == Ok::<i32, Error>(code),
            Verdict::Failure(_) => result is Err,
        },
    }
}

/// Whether the state belongs to a launch that has failed and has not said so yet.
pub open spec fn owes_an_error(state: LaunchState) -> bool {
    match state {
        LaunchState::ClosingSync { after } => !(after is Supervise),
        LaunchState::Reaping { .. } => true,
        LaunchState::Unblocking { verdict } => verdict is Failure,
        _ => false,
    }
}

/// Whether the parent is dealing with a child that it has started.
pub open spec fn has_child(state: LaunchState) -> bool {
    match state {
        LaunchState::ParentClosing
        | LaunchState::Mapping { .. }
        | LaunchState::Releasing
        | LaunchState::ClosingSync { .. }
        | LaunchState::Reaping { .. }
        | LaunchState::Supervising
        | LaunchState::ReadingStatus { .. } => true,
        _ => false,
    }
}

/// The progress of a launch.
#[derive(Debug)]
pub struct Launch {
    order: ByteOrder,
    state: LaunchState,
    child: Option<ChildHandle>,
    error: Option<Error>,
}

impl Launch {
    /// Where the launch stands.
    pub closed spec fn state(self) -> LaunchState {
        self.state
    }

    /// The byte order of failure records.
    pub closed spec fn order(self) -> ByteOrder {
        self.order
    }

    /// The child, once there is one and this is its parent.
    pub closed spec fn spec_child(self) -> Option<ChildHandle> {
        self.child
    }

    /// What has gone wrong and is yet to be said.
    pub closed spec fn error(self) -> Option<Error> {
        self.error
    }

    /// Whether there is something to be said exactly if something has gone
    /// wrong, and a child where something is done with it.
    pub open spec fn wf(self) -> bool {
        &&& self.error() is Some <==> owes_an_error(self.state())
        &&& has_child(self.state()) ==> self.spec_child() is Some
    }

    /// Starts to launch `sandbox`, on a machine with the given byte order.
    pub fn start(sandbox: &Sandbox, order: ByteOrder) -> (r: (Launch, LaunchCommand))
        ensures
            r.0.wf(),
            r.0.order() == order,
            r.0.state() == LaunchState::OpeningSync,
            r.0.spec_child() is None,
            is_command(*sandbox, None, LaunchState::OpeningSync, r.1),
    {
        (
            Launch { order, state: LaunchState::OpeningSync, child: None, error: None },
            LaunchCommand::OpenSyncPipe,
        )
    }

    /// The child, once there is one and this is its parent.
    pub fn child(&self) -> (r: Option<ChildHandle>)
        ensures
            r == self.spec_child(),
    {
        self.child
    }

    /// Goes on after `reply`, the answer to the command that was given last.
    pub fn resume(&mut self, sandbox: &Sandbox, reply: LaunchReply) -> (r: LaunchCommand)
        requires
            old(self).wf(),
            answers(reply, old(self).state()),
            sandbox.uid_map is Some,
            sandbox.gid_map is Some,
        ensures
            final(self).wf(),
            final(self).order() == old(self).order(),
            final(self).spec_child() == if reply is Cloned {
                crate::clone::handle_of(reply->Cloned_0)
            } else {
                old(self).spec_child()
            },
            final(self).state() == stepping(old(self).state(), reply, old(self).order()),
            is_command(*sandbox, final(self).spec_child(), final(self).state(), r),
            failure_of(old(self).state(), reply, old(self).order()) matches Some(failure) ==> (
            told(*final(self), r) matches Some(error) && tells_of(
                error,
                failure,
                reply,
                old(self).spec_child(),
                old(self).order(),
                *sandbox,
            )),
            failure_of(old(self).state(), reply, old(self).order()) is None ==> told(
                *final(self),
                r,
            ) == old(self).error(),
    {
        match reply {
            LaunchReply::Done => self.advance(),
            LaunchReply::Failed(cause) => self.fail(cause),
            LaunchReply::BlockFailed(reason) => {
                let mut message = String::from_str("failed to block signals: ");
                message.append(reason.as_str());
                self.error = Some(Error::Other(message));
                self.state = LaunchState::Returned { verdict: Verdict::Failure(Failure::Block) };
            },
            LaunchReply::Cloned(answer) => {
                match do_clone3(answer) {
                    Ok(Some(child)) => {
                        self.child = Some(child);
                        self.state = LaunchState::ParentClosing;
                    },
                    Ok(None) => {
                        self.child = None;
                        self.state = LaunchState::ChildUnblocking;
                    },
                    Err(error) => {
                        self.child = None;
                        let failure = if answer.ret == -1 {
                            Failure::Clone
                        } else {
                            Failure::PidFd
                        };
                        self.error = Some(error);
                        self.state = LaunchState::Unblocking {
                            verdict: Verdict::Failure(failure),
                        };
                    },
                }
            },
            LaunchReply::Supervised(result) => match result {
                Ok(code) => {
                    self.state = LaunchState::ReadingStatus { code };
                },
                Err(error) => {
                    self.error = Some(error);
                    self.state = LaunchState::Unblocking {
                        verdict: Verdict::Failure(Failure::Supervision),
                    };
                },
            },
            LaunchReply::Status { read, record } => {
                match decode_child_failure(read, &record, self.order, sandbox) {
                    Some(error) => {
                        self.error = Some(error);
                        self.state = LaunchState::Unblocking {
                            verdict: Verdict::Failure(Failure::Child),
                        };
                    },
                    None => self.advance(),
                }
            },
        }
        self.command(sandbox)
    }

    fn advance(&mut self)
        requires
            !(old(self).state is Cloning),
            !(old(self).state is Supervising),
        ensures
            *final(self) == (Launch {
                state: succeeding(old(self).state, LaunchReply::Done),
                ..*old(self)
            }),
    {
        self.state = match self.state {
            LaunchState::OpeningSync => LaunchState::OpeningStatus,
            LaunchState::OpeningStatus => LaunchState::Blocking,
            LaunchState::Blocking => LaunchState::Cloning,
            LaunchState::ChildUnblocking => LaunchState::ChildClosing,
            LaunchState::ChildClosing => LaunchState::ChildRunning,
            LaunchState::ParentClosing => LaunchState::Mapping { file: IdMapFile::Setgroups },
            LaunchState::Mapping { file } => match file.next() {
                Some(next) => LaunchState::Mapping { file: next },
                None => LaunchState::Releasing,
            },
            LaunchState::Releasing => LaunchState::ClosingSync { after: AfterSync::Supervise },
            LaunchState::ClosingSync { after } => match after {
                AfterSync::Reap(file) => LaunchState::Reaping { file },
                AfterSync::Supervise => LaunchState::Supervising,
                AfterSync::GiveUp => LaunchState::Unblocking {
                    verdict: Verdict::Failure(Failure::Release),
                },
            },
            LaunchState::Reaping { file } => LaunchState::Unblocking {
                verdict: Verdict::Failure(Failure::IdMap(file)),
            },
            LaunchState::ReadingStatus { code } => LaunchState::Unblocking {
                verdict: Verdict::Success { code },
            },
            LaunchState::Unblocking { verdict } => LaunchState::Returned { verdict },
            other => other,
        };
    }

    fn fail(&mut self, cause: Cause)
        requires
            answers(LaunchReply::Failed(cause), old(self).state),
            has_child(old(self).state) ==> old(self).child is Some,
        ensures
            final(self).order == old(self).order,
            final(self).child == old(self).child,
            final(self).state == stepping(
                old(self).state,
                LaunchReply::Failed(cause),
                old(self).order,
            ),
            final(self).error matches Some(error) && forall|sandbox: Sandbox| #[trigger]
                tells_of(
                    error,
                    failure_of(
                        old(self).state,
                        LaunchReply::Failed(cause),
                        old(self).order,
                    )->0,
                    LaunchReply::Failed(cause),
                    old(self).child,
                    old(self).order,
                    sandbox,
                ),
    {
        match self.state {
            LaunchState::OpeningSync => {
                self.error = Some(
                    Error::Setup {
                        stage: SetupStage::Clone,
                        context: String::from_str("pipe() failed"),
                        source: cause,
                    },
                );
                self.state = LaunchState::Returned {
                    verdict: Verdict::Failure(Failure::SyncPipe),
                };
            },
            LaunchState::OpeningStatus => {
                self.error = Some(
                    Error::Setup {
                        stage: SetupStage::Clone,
                        context: String::from_str("pipe2(O_CLOEXEC) failed"),
                        source: cause,
                    },
                );
                self.state = LaunchState::Returned {
                    verdict: Verdict::Failure(Failure::StatusPipe),
                };
            },
            LaunchState::Mapping { file } => {
                self.error = Some(file.failed(self.child.unwrap().pid, cause));
                self.state = LaunchState::ClosingSync { after: AfterSync::Reap(file) };
            },
            _ => {
                self.error = Some(
                    Error::Setup {
                        stage: SetupStage::Clone,
                        context: String::from_str("failed to signal child via sync pipe"),
                        source: cause,
                    },
                );
                self.state = LaunchState::ClosingSync { after: AfterSync::GiveUp };
            },
        }
    }

    fn command(&mut self, sandbox: &Sandbox) -> (r: LaunchCommand)
        requires
            sandbox.uid_map is Some,
            sandbox.gid_map is Some,
            has_child(old(self).state) ==> old(self).child is Some,
            old(self).state matches LaunchState::Returned { verdict } ==> (verdict is Failure
                <==> old(self).error is Some),
            !(old(self).state is Returned) ==> (old(self).error is Some <==> owes_an_error(
                old(self).state,
            )),
        ensures
            final(self).wf(),
            final(self).order == old(self).order,
            final(self).child == old(self).child,
            final(self).state == old(self).state,
            is_command(*sandbox, old(self).child, old(self).state, r),
            told(*final(self), r) == old(self).error,
    {
        match self.state {
            LaunchState::OpeningSync => LaunchCommand::OpenSyncPipe,
            LaunchState::OpeningStatus => LaunchCommand::OpenStatusPipe,
            LaunchState::Blocking => LaunchCommand::BlockSignals,
            LaunchState::Cloning => LaunchCommand::Clone(clone_args(&sandbox.namespaces)),
            LaunchState::ChildUnblocking => LaunchCommand::UnblockSignals,
            LaunchState::ChildClosing => {
                let ends: [PipeEnd; 2] = [PipeEnd::SyncWrite, PipeEnd::StatusRead];
                assert(ends@ =~= seq![PipeEnd::SyncWrite, PipeEnd::StatusRead]);
                LaunchCommand::Close(ends)
            },
            LaunchState::ChildRunning => LaunchCommand::RunChild {
                sync: PipeEnd::SyncRead,
                status: PipeEnd::StatusWrite,
            },
            LaunchState::ParentClosing => {
                let ends: [PipeEnd; 2] = [PipeEnd::SyncRead, PipeEnd::StatusWrite];
                assert(ends@ =~= seq![PipeEnd::SyncRead, PipeEnd::StatusWrite]);
                LaunchCommand::Close(ends)
            },
            LaunchState::Mapping { file } => LaunchCommand::WriteFile {
                path: file.path(self.child.unwrap().pid),
                content: file.content(
                    sandbox.uid_map.as_ref().unwrap(),
                    sandbox.gid_map.as_ref().unwrap(),
                ),
            },
            LaunchState::Releasing => LaunchCommand::Release,
            LaunchState::ClosingSync { .. } => LaunchCommand::CloseSync,
            LaunchState::Reaping { .. } => LaunchCommand::Reap,
            LaunchState::Supervising => LaunchCommand::Supervise {
                forward_signals: sandbox.process.forward_signals,
            },
            LaunchState::ReadingStatus { .. } => LaunchCommand::ReadStatus,
            LaunchState::Unblocking { .. } => LaunchCommand::UnblockSignals,
            LaunchState::Returned { verdict } => match verdict {
                Verdict::Success { code } => LaunchCommand::Return(Ok(code)),
                Verdict::Failure(_) => {
                    let error = self.error.take().unwrap();
                    LaunchCommand::Return(Err(error))
                },
            },
        }
    }
}

/// What has gone wrong, whether it is yet to be said or is said by `command`.
pub open spec fn told(launch: Launch, command: LaunchCommand) -> Option<Error> {
    match command {
        LaunchCommand::Return(Err(error)) => Some(error),
        _ => launch.error(),
    }
}

} // verus!
