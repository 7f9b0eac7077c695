//! Supervision of a running child.
//!
//! The parent blocks the signals that it passes on, and waits for them and for
//! the end of the child at once. A [`Supervision`] says what it does next.

use vstd::prelude::*;

use crate::error::Error;
use crate::sys::{
    SIGCHLD, SIGHUP, SIGINT, SIGKILL, SIGQUIT, SIGTERM, SIGUSR1, SIGUSR2,
};

verus! {

/// What is added to the number of the signal that killed a child.
pub const SIGNALED: i32 = 128;

/// A set of signals; `nix`'s type, carried through.
#[verifier::external_type_specification]
#[verifier::external_body]
pub struct ExSigSet(nix::sys::signal::SigSet);

/// The numbers of the signals in a set.
pub uninterp spec fn signals_of(set: nix::sys::signal::SigSet) -> Set<int>;

/// `nix::sys::signal::SigSet::empty`: a set without signals.
pub assume_specification[ nix::sys::signal::SigSet::empty ]() -> (r: nix::sys::signal::SigSet)
    ensures
        signals_of(r) == Set::<int>::empty(),
;

/// `nix::sys::signal::SigSet::add`: the signal with the given number comes into
/// the set, and the others stay as they are. `nix` has a name for the numbers
/// from one to thirty-one.
#[verifier::external_body]
fn add_signal(set: &mut nix::sys::signal::SigSet, signal: i32)
    requires
        1 <= signal <= 31,
    ensures
        signals_of(*final(set)) == signals_of(*old(set)).insert(signal as int),
{
    set.add(nix::sys::signal::Signal::try_from(signal).unwrap())
}

/// The signals that are passed on to the child, or that have it killed.
pub open spec fn forwarded() -> Set<int> {
    set![
        SIGTERM as int,
        SIGINT as int,
        SIGHUP as int,
        SIGQUIT as int,
        SIGUSR1 as int,
        SIGUSR2 as int,
    ]
}

/// The signals that are blocked before the child is started and awaited
/// afterwards, so that none is lost in between: those that are passed on, and
/// the one that tells of a child.
pub fn supervision_signal_mask() -> (r: nix::sys::signal::SigSet)
    ensures
        signals_of(r) == forwarded().insert(SIGCHLD as int),
{
    let mut mask = nix::sys::signal::SigSet::empty();
    add_signal(&mut mask, SIGTERM);
    add_signal(&mut mask, SIGINT);
    add_signal(&mut mask, SIGHUP);
    add_signal(&mut mask, SIGQUIT);
    add_signal(&mut mask, SIGUSR1);
    add_signal(&mut mask, SIGUSR2);
    add_signal(&mut mask, SIGCHLD);
    assert(signals_of(mask) =~= forwarded().insert(SIGCHLD as int));
    mask
}

/// Where the supervision stands.
#[derive(Clone, Copy, Debug, PartialEq, Eq, Structural)]
pub enum SuperviseState {
    /// It is opening the descriptor that signals are read from.
    Opening,
    /// It is waiting for a signal, or for the end of the child.
    Polling,
    /// It is asking how the child ended.
    Waiting,
    /// It is reading the signals that have come.
    Draining,
    /// It is sending a signal to the child.
    Sending { signal: i32 },
    /// The child has ended.
    Finished { code: i32 },
    /// It was given up.
    Failed,
}

/// What came of a command.
#[derive(Debug)]
pub enum SuperviseReply {
    /// The descriptor is open.
    Opened,
    /// The descriptor could not be opened, for the given reason.
    OpenFailed(String),
    /// Something has come; `child_ended` if it is the end of the child.
    Polled { child_ended: bool },
    /// The wait was interrupted.
    Interrupted,
    /// The wait failed, for the given reason.
    PollFailed(String),
    /// The child exited with the given status.
    Exited(i32),
    /// The child was killed by the given signal.
    Killed(i32),
    /// The child has not ended, or it cannot be told how.
    Unsettled,
    /// The given signal was read.
    Signal(u32),
    /// There is no signal to be read.
    NoSignal,
    /// The signal was sent, or could not be.
    Sent,
}

/// Whether `reply` can be the answer to the command of `state`.
pub open spec fn answers(reply: SuperviseReply, state: SuperviseState) -> bool {
    match state {
        SuperviseState::Opening => reply is Opened || reply is OpenFailed,
        SuperviseState::Polling => reply is Polled || reply is Interrupted || reply is PollFailed,
        SuperviseState::Waiting => match reply {
            SuperviseReply::Exited(_) => true,
            SuperviseReply::Killed(signal) => SIGNALED + signal <= i32::MAX,
            SuperviseReply::Unsettled => true,
            _ => false,
        },
        SuperviseState::Draining => reply is Signal || reply is NoSignal,
        SuperviseState::Sending { .. } => reply is Sent,
        _ => false,
    }
}

/// Where the supervision stands after `reply`.
pub open spec fn stepping(
    forward_signals: bool,
    state: SuperviseState,
    reply: SuperviseReply,
) -> SuperviseState {
    match reply {
        SuperviseReply::Opened => SuperviseState::Polling,
        SuperviseReply::OpenFailed(_) => SuperviseState::Failed,
        SuperviseReply::Polled { child_ended } => if child_ended {
            SuperviseState::Waiting
        } else {
            SuperviseState::Draining
        },
        SuperviseReply::Interrupted => SuperviseState::Polling,
        SuperviseReply::PollFailed(_) => SuperviseState::Failed,
        SuperviseReply::Exited(code) => SuperviseState::Finished { code },
        SuperviseReply::Killed(signal) => SuperviseState::Finished {
            code: (SIGNALED + signal) as i32,
        },
        SuperviseReply::Unsettled => SuperviseState::Polling,
        SuperviseReply::Signal(signal) => if signal == SIGCHLD {
            SuperviseState::Draining
        } else if forward_signals {
            SuperviseState::Sending { signal: signal as i32 }
        } else {
            SuperviseState::Sending { signal: SIGKILL }
        },
        SuperviseReply::NoSignal => SuperviseState::Polling,
        SuperviseReply::Sent => SuperviseState::Draining,
    }
}

/// What the program does next.
#[derive(Debug)]
pub enum SuperviseCommand {
    /// Open a descriptor for the signals of [`supervision_signal_mask`], which is
    /// closed on execution and does not block.
    OpenSignals,
    /// Wait until the descriptor of the child or that of the signals is readable.
    Poll,
    /// Ask how the child ended, without waiting for it.
    WaitChild,
    /// Read a signal.
    ReadSignal,
    /// Send a signal to the child.
    Send(i32),
    /// Nothing: the child has ended, with the given status.
    Return(i32),
    /// Nothing: the supervision was given up.
    Fail(Error),
}

/// What is said when the supervision is given up.
pub open spec fn failure_text(reply: SuperviseReply) -> Seq<char> {
    match reply {
        SuperviseReply::OpenFailed(reason) => "signalfd creation failed: "@ + reason@,
        SuperviseReply::PollFailed(reason) => "poll failed: "@ + reason@,
        _ => Seq::empty(),
    }
}

/// Whether `command` is what is done in `state`, to which `reply` led.
pub open spec fn is_command(
    state: SuperviseState,
    reply: SuperviseReply,
    command: SuperviseCommand,
) -> bool {
    match state {
        SuperviseState::Opening => command is OpenSignals,
        SuperviseState::Polling => command is Poll,
        SuperviseState::Waiting => command is WaitChild,
        SuperviseState::Draining => command is ReadSignal,
        SuperviseState::Sending { signal } => command == SuperviseCommand::Send(signal),
        SuperviseState::Finished { code } => command == SuperviseCommand::Return(code),
        SuperviseState::Failed => command matches SuperviseCommand::Fail(Error::Other(message))
            && message@ == failure_text(reply),
    }
}

/// The supervision of a child.
#[derive(Clone, Copy, Debug)]
pub struct Supervision {
    forward_signals: bool,
    state: SuperviseState,
}

impl Supervision {
    /// Where the supervision stands.
    pub closed spec fn state(self) -> SuperviseState {
        self.state
    }

    /// Whether signals are passed on. The child is killed otherwise.
    pub closed spec fn forwards(self) -> bool {
        self.forward_signals
    }

    /// Starts to supervise a child.
    pub fn start(forward_signals: bool) -> (r: (Supervision, SuperviseCommand))
        ensures
            r.0.state() == SuperviseState::Opening,
            r.0.forwards() == forward_signals,
            r.1 is OpenSignals,
    {
        (
            Supervision { forward_signals, state: SuperviseState::Opening },
            SuperviseCommand::OpenSignals,
        )
    }

    /// Goes on after `reply`, the answer to the command that was given last.
    pub fn resume(&mut self, reply: SuperviseReply) -> (r: SuperviseCommand)
        requires
            answers(reply, old(self).state()),
        ensures
            final(self).forwards() == old(self).forwards(),
            final(self).state() == stepping(old(self).forwards(), old(self).state(), reply),
            is_command(final(self).state(), reply, r),
    {
        match reply {
            SuperviseReply::Opened => self.poll(),
            SuperviseReply::OpenFailed(reason) => {
                let mut message = String::from_str("signalfd creation failed: ");
                message.append(reason.as_str());
                self.state = SuperviseState::Failed;
                SuperviseCommand::Fail(Error::Other(message))
            },
            SuperviseReply::Polled { child_ended } => if child_ended {
                self.state = SuperviseState::Waiting;
                SuperviseCommand::WaitChild
            } else {
                self.drain()
            },
            SuperviseReply::Interrupted => self.poll(),
            SuperviseReply::PollFailed(reason) => {
                let mut message = String::from_str("poll failed: ");
                message.append(reason.as_str());
                self.state = SuperviseState::Failed;
                SuperviseCommand::Fail(Error::Other(message))
            },
            SuperviseReply::Exited(code) => self.finish(code),
            SuperviseReply::Killed(signal) => self.finish(SIGNALED + signal),
            SuperviseReply::Unsettled => self.poll(),
            SuperviseReply::Signal(signal) => if signal == SIGCHLD as u32 {
                self.drain()
            } else if self.forward_signals {
                self.send(
                    #[verifier::truncate]
                    (signal as i32),
                )
            } else {
                self.send(SIGKILL)
            },
            SuperviseReply::NoSignal => self.poll(),
            SuperviseReply::Sent => self.drain(),
        }
    }

    fn poll(&mut self) -> (r: SuperviseCommand)
        ensures
            final(self).state == SuperviseState::Polling,
            final(self).forward_signals == old(self).forward_signals,
            r is Poll,
    {
        self.state = SuperviseState::Polling;
        SuperviseCommand::Poll
    }

    fn drain(&mut self) -> (r: SuperviseCommand)
        ensures
            final(self).state == SuperviseState::Draining,
            final(self).forward_signals == old(self).forward_signals,
            r is ReadSignal,
    {
        self.state = SuperviseState::Draining;
        SuperviseCommand::ReadSignal
    }

    fn send(&mut self, signal: i32) -> (r: SuperviseCommand)
        ensures
            final(self).state == (SuperviseState::Sending { signal }),
            final(self).forward_signals == old(self).forward_signals,
            r == SuperviseCommand::Send(signal),
    {
        self.state = SuperviseState::Sending { signal };
        SuperviseCommand::Send(signal)
    }

    fn finish(&mut self, code: i32) -> (r: SuperviseCommand)
        ensures
            final(self).state == (SuperviseState::Finished { code }),
            final(self).forward_signals == old(self).forward_signals,
            r == SuperviseCommand::Return(code),
    {
        self.state = SuperviseState::Finished { code };
        SuperviseCommand::Return(code)
    }
}

/// Where a supervision stands after the given replies.
pub open spec fn run(forward_signals: bool, replies: Seq<SuperviseReply>) -> SuperviseState
    decreases replies.len(),
{
    if replies.len() == 0 {
        SuperviseState::Opening
    } else {
        stepping(forward_signals, run(forward_signals, replies.drop_last()), replies.last())
    }
}

/// Whether each reply can be the answer to the command it follows.
pub open spec fn answered(forward_signals: bool, replies: Seq<SuperviseReply>) -> bool
    decreases replies.len(),
{
    replies.len() == 0 || answered(forward_signals, replies.drop_last()) && answers(
        replies.last(),
        run(forward_signals, replies.drop_last()),
    )
}

/// How many signals have been read that concern the child.
pub open spec fn received(replies: Seq<SuperviseReply>) -> int
    decreases replies.len(),
{
    if replies.len() == 0 {
        0
    } else {
        received(replies.drop_last()) + match replies.last() {
            SuperviseReply::Signal(signal) => if signal == SIGCHLD {
                0int
            } else {
                1
            },
            _ => 0,
        }
    }
}

/// How many signals have been sent to the child.
pub open spec fn sent(replies: Seq<SuperviseReply>) -> int
    decreases replies.len(),
{
    if replies.len() == 0 {
        0
    } else {
        sent(replies.drop_last()) + if replies.last() is Sent {
            1int
        } else {
            0
        }
    }
}

/// Every signal that concerns the child is answered by sending it exactly one,
/// before anything else is done.
pub proof fn law_each_signal_is_answered_once(forward_signals: bool, replies: Seq<SuperviseReply>)
    requires
        answered(forward_signals, replies),
    ensures
        received(replies) == sent(replies) + if run(forward_signals, replies) is Sending {
            1int
        } else {
            0
        },
    decreases replies.len(),
{
    if replies.len() > 0 {
        law_each_signal_is_answered_once(forward_signals, replies.drop_last());
    }
}

/// What is sent to the child is the signal that was read, if signals are passed
/// on, and otherwise the one that kills it.
pub proof fn law_what_is_sent(forward_signals: bool, replies: Seq<SuperviseReply>, signal: i32)
    requires
        answered(forward_signals, replies),
        run(forward_signals, replies) == (SuperviseState::Sending { signal }),
    ensures
        replies.len() > 0,
        replies.last() matches SuperviseReply::Signal(read) && read != SIGCHLD && signal == if
            forward_signals {
            read as i32
        } else {
            SIGKILL
        },
{
}

/// A supervision returns only what the child itself ended with: its status, or
/// the signal that killed it.
pub proof fn law_status_is_the_childs(
    forward_signals: bool,
    replies: Seq<SuperviseReply>,
    code: i32,
)
    requires
        answered(forward_signals, replies),
        run(forward_signals, replies) == (SuperviseState::Finished { code }),
    ensures
        replies.len() > 0,
        match replies.last() {
            SuperviseReply::Exited(status) => code == status,
            SuperviseReply::Killed(signal) => code == SIGNALED + signal,
            _ => false,
        },
{
}

/// Whether `command` is what a supervision does next after the given replies.
pub open spec fn does_next(
    forward_signals: bool,
    replies: Seq<SuperviseReply>,
    command: SuperviseCommand,
) -> bool {
    is_command(
        run(forward_signals, replies),
        if replies.len() > 0 {
            replies.last()
        } else {
            SuperviseReply::Opened
        },
        command,
    )
}

/// A supervision starts by asking for the descriptor of the signals.
pub proof fn law_signals_are_opened_first(forward_signals: bool, command: SuperviseCommand)
    requires
        does_next(forward_signals, Seq::empty(), command),
    ensures
        command is OpenSignals,
{
}

/// The end of the child is noticed whenever it shows: a supervision that is told
/// of it asks how the child ended, and returns what it is told, whether or not
/// signals are passed on.
pub proof fn law_end_of_the_child_is_returned(
    forward_signals: bool,
    replies: Seq<SuperviseReply>,
    end: SuperviseReply,
    ask: SuperviseCommand,
    command: SuperviseCommand,
)
    requires
        answered(forward_signals, replies),
        replies.len() > 0,
        replies.last() == (SuperviseReply::Polled { child_ended: true }),
        does_next(forward_signals, replies, ask),
        does_next(forward_signals, replies.push(end), command),
    ensures
        ask is WaitChild,
        end matches SuperviseReply::Exited(code) ==> command == SuperviseCommand::Return(code),
        end matches SuperviseReply::Killed(signal) ==> (128 + signal <= i32::MAX ==> command
            == SuperviseCommand::Return((128 + signal) as i32)),
        end is Unsettled ==> command is Poll,
{
    assert(replies.push(end).drop_last() =~= replies);
}

/// A supervision gives up only because the descriptor of the signals cannot be
/// opened or the wait for events fails, and says which, with the reason.
pub proof fn law_giving_up_is_explained(
    forward_signals: bool,
    replies: Seq<SuperviseReply>,
    command: SuperviseCommand,
)
    requires
        answered(forward_signals, replies),
        does_next(forward_signals, replies, command),
    ensures
        command is Fail <==> replies.len() > 0 && (replies.last() is OpenFailed
            || replies.last() is PollFailed),
        command matches SuperviseCommand::Fail(error) ==> (error matches Error::Other(message)
            && match replies.last() {
            SuperviseReply::OpenFailed(reason) => message@ == "signalfd creation failed: "@
                + reason@,
            SuperviseReply::PollFailed(reason) => message@ == "poll failed: "@ + reason@,
            _ => false,
        }),
        command is Return <==> replies.len() > 0 && (replies.last() is Exited
            || replies.last() is Killed),
{
}

/// Whatever signal is read, but the one that tells of a child, is answered at once:
/// the child is sent that signal, or killed if signals are not passed on. Then the
/// next signal is read, until there is none.
pub proof fn law_signals_reach_the_child(
    forward_signals: bool,
    replies: Seq<SuperviseReply>,
    signal: u32,
    command: SuperviseCommand,
)
    requires
        answered(forward_signals, replies),
        replies.len() > 0,
        does_next(forward_signals, replies, command),
    ensures
        replies.last() == SuperviseReply::Signal(signal) && signal == SIGCHLD ==> command
            is ReadSignal,
        replies.last() == SuperviseReply::Signal(signal) && signal != SIGCHLD ==> command
            == SuperviseCommand::Send(
            if forward_signals {
                signal as i32
            } else {
                SIGKILL
            },
        ),
        replies.last() is Sent ==> command is ReadSignal,
        replies.last() is NoSignal ==> command is Poll,
{
}

/// A supervision waits for events once the signals can be read, and again after an
/// interruption. Where events have come and the child has not ended, it reads the
/// signals.
pub proof fn law_events_are_waited_for(
    forward_signals: bool,
    replies: Seq<SuperviseReply>,
    command: SuperviseCommand,
)
    requires
        answered(forward_signals, replies),
        replies.len() > 0,
        does_next(forward_signals, replies, command),
    ensures
        replies.last() is Opened || replies.last() is Interrupted ==> command is Poll,
        replies.last() == (SuperviseReply::Polled { child_ended: false }) ==> command
            is ReadSignal,
{
}

/// Every command but the last can be answered, by any outcome that it can have, and
/// by no other.
pub proof fn law_commands_can_be_answered(
    state: SuperviseState,
    led: SuperviseReply,
    command: SuperviseCommand,
    reply: SuperviseReply,
)
    requires
        is_command(state, led, command),
    ensures
        command is OpenSignals ==> (answers(reply, state) <==> reply is Opened
            || reply is OpenFailed),
        command is Poll ==> (answers(reply, state) <==> reply is Polled || reply is Interrupted
            || reply is PollFailed),
        command is WaitChild ==> (answers(reply, state) <==> reply is Exited || reply is Unsettled
            || (reply matches SuperviseReply::Killed(signal) && 128 + signal <= i32::MAX)),
        command is ReadSignal ==> (answers(reply, state) <==> reply is Signal || reply is NoSignal),
        command is Send ==> (answers(reply, state) <==> reply is Sent),
        command is Return || command is Fail ==> !answers(reply, state),
{
}

/// The signals that are blocked and awaited are the six that end, stop or notify a
/// program at its user's wish and the one that tells of a child, and no others.
pub proof fn law_which_signals_are_awaited(mask: nix::sys::signal::SigSet, signal: int)
    requires
        call_ensures(supervision_signal_mask, (), mask),
    ensures
        signals_of(mask).contains(signal) <==> signal == SIGHUP || signal == SIGINT || signal
            == SIGQUIT || signal == SIGTERM || signal == SIGUSR1 || signal == SIGUSR2 || signal
            == SIGCHLD,
{
}

/// A supervision starts where every run of it begins.
pub proof fn law_where_a_supervision_starts(
    forward_signals: bool,
    r: (Supervision, SuperviseCommand),
)
    requires
        call_ensures(Supervision::start, (forward_signals,), r),
    ensures
        r.0.state() == run(forward_signals, Seq::empty()),
        r.0.forwards() == forward_signals,
        does_next(forward_signals, Seq::empty(), r.1),
{
}

} // verus!
