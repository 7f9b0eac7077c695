//! What holds of every run of a child.

use vstd::prelude::*;

use super::{
    Action, Command, Phase, Reply, RunState, EXIT_COMMAND_NOT_FOUND, EXIT_SETUP_FAILED,
};
use crate::bytes::ByteOrder;
use crate::child::{ChildSpec, FdAction};
use crate::completion::COMPLETE_STAGE_MASK;
use crate::error::Errno;
use crate::report::ChildFailure;
use crate::sys::ENOENT;

verus! {

/// Where a child stands once it has had the given replies.
pub open spec fn run(child: &ChildSpec, replies: Seq<Reply>) -> RunState
    decreases replies.len(),
{
    if replies.len() == 0 {
        super::starting(child)
    } else {
        super::stepping(child, run(child, replies.drop_last()), replies.last())
    }
}

/// Whether each of the replies can be the answer to the command it follows.
pub open spec fn answered(child: &ChildSpec, replies: Seq<Reply>) -> bool
    decreases replies.len(),
{
    replies.len() == 0 || answered(child, replies.drop_last()) && super::answers(
        replies.last(),
        run(child, replies.drop_last()),
    )
}

/// Whether the child took `phase` as its command number `k`, with success.
pub open spec fn succeeded_at(
    child: &ChildSpec,
    replies: Seq<Reply>,
    phase: Phase,
    k: int,
) -> bool {
    &&& 0 <= k < replies.len()
    &&& run(child, replies.take(k)) == RunState::Performing { phase }
    &&& replies[k] is Done || replies[k] is Parent
}

/// Whether the child took `phase` with success.
pub open spec fn succeeded(child: &ChildSpec, replies: Seq<Reply>, phase: Phase) -> bool {
    exists|k: int| succeeded_at(child, replies, phase, k)
}

/// A child whose completion evidence cannot be given takes no step at all.
pub proof fn law_rejected_before_setup(child: &ChildSpec, replies: Seq<Reply>)
    requires
        !super::completion_is_valid(child),
    ensures
        !(run(child, replies) is Performing),
    decreases replies.len(),
{
    if replies.len() > 0 {
        law_rejected_before_setup(child, replies.drop_last());
    }
}

/// Once a child has failed it takes no further step.
pub proof fn law_failure_is_final(child: &ChildSpec, replies: Seq<Reply>, more: Seq<Reply>)
    requires
        !(run(child, replies) is Performing),
    ensures
        !(run(child, replies + more) is Performing),
    decreases more.len(),
{
    if more.len() == 0 {
        assert(replies + more =~= replies);
    } else {
        law_failure_is_final(child, replies, more.drop_last());
        assert((replies + more).drop_last() =~= replies + more.drop_last());
    }
}

/// A child takes its steps in order, and skips none that it was asked for.
pub proof fn law_order(child: &ChildSpec, replies: Seq<Reply>, reply: Reply)
    requires
        answered(child, replies.push(reply)),
    ensures
        run(child, replies) matches RunState::Performing { phase: p } ==> (run(
            child,
            replies.push(reply),
        ) matches RunState::Performing { phase: q } ==> {
            &&& p.rank() < q.rank()
            &&& q.enabled(child)
            &&& forall|between: Phase|
                p.rank() < #[trigger] between.rank() < q.rank() ==> !between.enabled(child)
        }),
{
    let longer = replies.push(reply);
    assert(longer.drop_last() =~= replies);
    assert(run(child, longer) == super::stepping(child, run(child, replies), reply));
    if let RunState::Performing { phase: p } = run(child, replies) {
        super::lemma_phase_at(p);
        if let RunState::Performing { phase: q } = run(child, longer) {
            assert(!(p is Exec));
            super::lemma_first_enabled(child, p.rank() + 1);
            assert(q == super::first_enabled(child, p.rank() + 1));
            assert forall|between: Phase|
                p.rank() < #[trigger] between.rank() < q.rank() implies !between.enabled(child) by {
                assert(p.rank() + 1 <= between.rank());
            }
        }
    }
}

/// The first step that a child takes is the first that it was asked for.
pub proof fn law_first_step(child: &ChildSpec, q: Phase)
    requires
        run(child, Seq::empty()) == (RunState::Performing { phase: q }),
    ensures
        q.enabled(child),
        forall|before: Phase| #[trigger] before.rank() < q.rank() ==> !before.enabled(child),
{
    super::lemma_first_enabled(child, 0);
    assert forall|before: Phase| #[trigger] before.rank() < q.rank() implies !before.enabled(
        child,
    ) by {
        super::lemma_phase_at(before);
    }
}

/// A child that is about to take a step has taken every earlier step that it
/// was asked for, each with success.
pub proof fn law_earlier_steps_succeeded(
    child: &ChildSpec,
    replies: Seq<Reply>,
    phase: Phase,
    earlier: Phase,
)
    requires
        answered(child, replies),
        run(child, replies) == (RunState::Performing { phase }),
        earlier.enabled(child),
        earlier.rank() < phase.rank(),
    ensures
        succeeded(child, replies, earlier),
    decreases replies.len(),
{
    if replies.len() == 0 {
        assert(replies =~= Seq::empty());
        law_first_step(child, phase);
    } else {
        let before = replies.drop_last();
        assert(before.push(replies.last()) =~= replies);
        assert(run(child, before) is Performing);
        if let RunState::Performing { phase: previous } = run(child, before) {
            law_order(child, before, replies.last());
            if earlier.rank() < previous.rank() {
                law_earlier_steps_succeeded(child, before, previous, earlier);
                let k = choose|k: int| succeeded_at(child, before, earlier, k);
                assert(replies.take(k) =~= before.take(k));
                assert(succeeded_at(child, replies, earlier, k));
            } else {
                super::lemma_phase_at(earlier);
                super::lemma_phase_at(previous);
                assert(earlier == previous);
                assert(replies.take(before.len() as int) =~= before);
                assert(succeeded_at(child, replies, earlier, before.len() as int));
            }
        }
    }
}

/// When the completion record is written, completion was asked for and valid,
/// and each of the six required primitives has been taken with success.
pub proof fn law_completion_needs_every_primitive(child: &ChildSpec, replies: Seq<Reply>)
    requires
        answered(child, replies),
        run(child, replies) == (RunState::Performing { phase: Phase::CompletionWrite }),
    ensures
        child.completion is Some,
        super::completion_is_valid(child),
        succeeded(child, replies, Phase::Mount),
        succeeded(child, replies, Phase::Rlimit),
        succeeded(child, replies, Phase::Capabilities),
        succeeded(child, replies, Phase::FdClose),
        succeeded(child, replies, Phase::NoNewPrivs),
        succeeded(child, replies, Phase::Seccomp),
{
    if !super::completion_is_valid(child) {
        law_rejected_before_setup(child, replies);
    }
    lemma_performed_is_enabled(child, replies);
    let last = Phase::CompletionWrite;
    law_earlier_steps_succeeded(child, replies, last, Phase::Mount);
    law_earlier_steps_succeeded(child, replies, last, Phase::Rlimit);
    law_earlier_steps_succeeded(child, replies, last, Phase::Capabilities);
    law_earlier_steps_succeeded(child, replies, last, Phase::FdClose);
    law_earlier_steps_succeeded(child, replies, last, Phase::NoNewPrivs);
    law_earlier_steps_succeeded(child, replies, last, Phase::Seccomp);
}

proof fn lemma_performed_is_enabled(child: &ChildSpec, replies: Seq<Reply>)
    requires
        answered(child, replies),
    ensures
        run(child, replies) matches RunState::Performing { phase } ==> phase.enabled(child),
{
    if replies.len() == 0 {
        super::lemma_first_enabled(child, 0);
    } else if let RunState::Performing { phase } = run(child, replies.drop_last()) {
        super::lemma_phase_at(phase);
        if phase.rank() < 22 {
            super::lemma_first_enabled(child, phase.rank() + 1);
        }
    }
}

/// The completion record is written at most once.
pub proof fn law_completion_is_written_once(child: &ChildSpec, replies: Seq<Reply>, j: int, k: int)
    requires
        answered(child, replies),
        0 <= j < k <= replies.len(),
        run(child, replies.take(j)) == (RunState::Performing { phase: Phase::CompletionWrite }),
    ensures
        run(child, replies.take(k)) != (RunState::Performing { phase: Phase::CompletionWrite }),
{
    lemma_ranks_grow(child, replies, j, k);
}

proof fn lemma_answered_prefix(child: &ChildSpec, replies: Seq<Reply>, k: int)
    requires
        answered(child, replies),
        0 <= k <= replies.len(),
    ensures
        answered(child, replies.take(k)),
    decreases replies.len(),
{
    if k < replies.len() {
        lemma_answered_prefix(child, replies.drop_last(), k);
        assert(replies.drop_last().take(k) =~= replies.take(k));
    } else {
        assert(replies.take(k) =~= replies);
    }
}

proof fn lemma_ranks_grow(child: &ChildSpec, replies: Seq<Reply>, j: int, k: int)
    requires
        answered(child, replies),
        0 <= j < k <= replies.len(),
        run(child, replies.take(j)) is Performing,
    ensures
        run(child, replies.take(j)) matches RunState::Performing { phase: p } ==> (run(
            child,
            replies.take(k),
        ) matches RunState::Performing { phase: q } ==> p.rank() < q.rank()),
    decreases k - j,
{
    let before = replies.take(k - 1);
    assert(replies.take(k) =~= before.push(replies[k - 1]));
    lemma_answered_prefix(child, replies, k);
    law_order(child, before, replies[k - 1]);
    if j < k - 1 {
        lemma_ranks_grow(child, replies, j, k - 1);
        if !(run(child, before) is Performing) {
            law_failure_is_final(child, before, seq![replies[k - 1]]);
            assert(before + seq![replies[k - 1]] =~= replies.take(k));
        }
    }
}

spec fn steps_left(state: RunState) -> int {
    match state {
        RunState::Performing { phase } => 25 - phase.rank(),
        RunState::Status { .. } => 2,
        RunState::Stderr { .. } => 1,
        RunState::Exited { .. } => 0,
    }
}

/// Every run ends: a child gets at most twenty-five answers.
pub proof fn law_run_ends(child: &ChildSpec, replies: Seq<Reply>)
    requires
        answered(child, replies),
    ensures
        replies.len() <= 25,
{
    lemma_steps_left(child, replies);
}

proof fn lemma_steps_left(child: &ChildSpec, replies: Seq<Reply>)
    requires
        answered(child, replies),
    ensures
        replies.len() + steps_left(run(child, replies)) <= 25,
        steps_left(run(child, replies)) >= 0,
    decreases replies.len(),
{
    if replies.len() == 0 {
        super::lemma_first_enabled(child, 0);
        super::lemma_phase_at(super::first_enabled(child, 0));
    } else {
        let before = replies.drop_last();
        lemma_steps_left(child, before);
        assert(before.push(replies.last()) =~= replies);
        law_order(child, before, replies.last());
        if let RunState::Performing { phase } = run(child, replies) {
            super::lemma_phase_at(phase);
        }
        if let RunState::Performing { phase } = run(child, before) {
            super::lemma_phase_at(phase);
        }
    }
}

spec fn exit_code_of(state: RunState) -> Option<i32> {
    match state {
        RunState::Performing { .. } => None,
        RunState::Status { fault } => Some(fault.exit_code),
        RunState::Stderr { fault } => Some(fault.exit_code),
        RunState::Exited { code } => Some(code),
    }
}

/// A child exits with one of two statuses, and with the one for a missing
/// command only if it tried to execute the command and was told that there is
/// none.
pub proof fn law_exit_status(child: &ChildSpec, replies: Seq<Reply>, code: i32)
    requires
        answered(child, replies),
        run(child, replies) == (RunState::Exited { code }),
    ensures
        code == EXIT_SETUP_FAILED || code == EXIT_COMMAND_NOT_FOUND,
        code == EXIT_COMMAND_NOT_FOUND ==> exists|k: int|
            0 <= k < replies.len() && #[trigger] replies[k] == Reply::Failed(Errno(ENOENT)) && run(
                child,
                replies.take(k),
            ) == (RunState::Performing { phase: Phase::Exec }),
{
    lemma_exit_code(child, replies);
}

proof fn lemma_exit_code(child: &ChildSpec, replies: Seq<Reply>)
    requires
        answered(child, replies),
    ensures
        exit_code_of(run(child, replies)) matches Some(code) ==> {
            &&& code == EXIT_SETUP_FAILED || code == EXIT_COMMAND_NOT_FOUND
            &&& code == EXIT_COMMAND_NOT_FOUND ==> exists|k: int|
                0 <= k < replies.len() && #[trigger] replies[k] == Reply::Failed(Errno(ENOENT))
                    && run(child, replies.take(k)) == (RunState::Performing { phase: Phase::Exec })
        },
    decreases replies.len(),
{
    if replies.len() > 0 {
        let before = replies.drop_last();
        let n = before.len() as int;
        lemma_exit_code(child, before);
        assert(replies.take(n) =~= before);
        if let Some(code) = exit_code_of(run(child, before)) {
            if code == EXIT_COMMAND_NOT_FOUND {
                let k = choose|k: int|
                    0 <= k < before.len() && #[trigger] before[k] == Reply::Failed(Errno(ENOENT))
                        && run(child, before.take(k)) == (RunState::Performing {
                        phase: Phase::Exec,
                    });
                assert(replies.take(k) =~= before.take(k));
                assert(replies[k] == before[k]);
            }
        } else if let Some(code) = exit_code_of(run(child, replies)) {
            if code == EXIT_COMMAND_NOT_FOUND {
                assert(replies[n] == replies.last());
            }
        }
    }
}

/// A child that was found able to give completion evidence never lacks any of
/// it when the time comes.
pub proof fn law_evidence_is_never_missing(child: &ChildSpec, rank: int)
    requires
        0 <= rank <= 22,
        super::completion_is_valid(child),
    ensures
        super::arriving(child, rank) == (RunState::Performing {
            phase: super::first_enabled(child, rank),
        }),
{
    super::lemma_first_enabled(child, rank);
    let phase = super::first_enabled(child, rank);
    if phase is CompletionWrite {
        assert(super::evidence(child, phase.rank()) == COMPLETE_STAGE_MASK);
    }
}

/// The descriptors that evidence and failures go to outlive the closing of
/// descriptors, and no descriptor action touches them.
pub proof fn law_report_descriptors_survive(child: &ChildSpec, action: Action, i: int)
    requires
        super::completion_is_valid(child),
        child.completion is Some,
        super::is_action(child, Phase::FdClose, action),
    ensures
        action matches Action::CloseOtherFds { keep, extra_keep } && extra_keep@.contains(
            child.status_fd->0,
        ) && extra_keep@.contains(child.completion->0.spec_fd()),
        0 <= i < child.fds.actions@.len() ==> !super::touches(
            child.fds.actions@[i],
            child.status_fd->0,
        ) && !super::touches(child.fds.actions@[i], child.completion->0.spec_fd()),
{
    if let Action::CloseOtherFds { keep, extra_keep } = action {
        assert(extra_keep@[0] == child.status_fd->0);
        assert(extra_keep@[1] == child.completion->0.spec_fd());
    }
}

/// A child that gives completion evidence reports every failure on the status
/// descriptor, a failed execution of the command among them.
pub proof fn law_evidence_comes_with_a_status(child: &ChildSpec, phase: Phase, err: Errno)
    requires
        super::completion_is_valid(child),
        child.completion is Some,
    ensures
        super::stepping(child, RunState::Performing { phase }, Reply::Failed(err)) matches
            RunState::Status { fault } && fault.stage == phase.stage() && fault.errno == err.0,
{
}

/// Where completion evidence is asked for, the command is executed only right
/// after the record has been written and its descriptor closed, both with
/// success.
pub proof fn law_evidence_comes_right_before_the_command(child: &ChildSpec, replies: Seq<Reply>)
    requires
        answered(child, replies),
        run(child, replies) == (RunState::Performing { phase: Phase::Exec }),
        child.completion is Some,
    ensures
        succeeded_at(child, replies, Phase::CompletionWrite, replies.len() - 2),
        succeeded_at(child, replies, Phase::CompletionClose, replies.len() - 1),
{
    lemma_step_before(child, replies, Phase::Exec, Phase::CompletionClose);
    let before = replies.drop_last();
    let n = before.len() as int;
    lemma_step_before(child, before, Phase::CompletionClose, Phase::CompletionWrite);
    assert(before.take(n - 1) =~= replies.take(n - 1));
    assert(before[n - 1] == replies[n - 1]);
    assert(before.take(n - 1) =~= before.drop_last());
    assert(replies.take(n) =~= before);
}

/// A step that is asked for right before another is the one that was taken last.
proof fn lemma_step_before(child: &ChildSpec, replies: Seq<Reply>, phase: Phase, previous: Phase)
    requires
        answered(child, replies),
        run(child, replies) == (RunState::Performing { phase }),
        previous.enabled(child),
        previous.rank() + 1 == phase.rank(),
        !(previous is ParentCheck),
    ensures
        replies.len() > 0,
        answered(child, replies.drop_last()),
        run(child, replies.drop_last()) == (RunState::Performing { phase: previous }),
        succeeded_at(child, replies, previous, replies.len() - 1),
{
    if replies.len() == 0 {
        assert(replies =~= Seq::empty());
        law_first_step(child, phase);
    } else {
        let before = replies.drop_last();
        assert(before.push(replies.last()) =~= replies);
        assert(replies.take(replies.len() - 1) =~= before);
        if let RunState::Performing { phase: last } = run(child, before) {
            law_order(child, before, replies.last());
            super::lemma_phase_at(last);
            super::lemma_phase_at(previous);
            assert(last.rank() >= previous.rank());
            assert(last == previous);
        }
    }
}

/// Whether `command` is what a child does next after the given replies.
pub open spec fn does_next(
    child: &ChildSpec,
    order: ByteOrder,
    replies: Seq<Reply>,
    command: Command,
) -> bool {
    super::is_command(child, order, run(child, replies), command)
}

/// Whether the child was told to take `action`, and nothing else, as its command
/// number `k`, and took it with success.
pub open spec fn performed_at(
    child: &ChildSpec,
    order: ByteOrder,
    replies: Seq<Reply>,
    action: Action,
    k: int,
) -> bool {
    &&& 0 <= k < replies.len()
    &&& replies[k] is Done
    &&& forall|command: Command| #[trigger]
        does_next(child, order, replies.take(k), command) ==> command == Command::Perform(action)
}

/// Whether the child took `action` with success.
pub open spec fn performed(
    child: &ChildSpec,
    order: ByteOrder,
    replies: Seq<Reply>,
    action: Action,
) -> bool {
    exists|k: int| #[trigger] performed_at(child, order, replies, action, k)
}

proof fn lemma_performed(
    child: &ChildSpec,
    order: ByteOrder,
    replies: Seq<Reply>,
    phase: Phase,
    action: Action,
)
    requires
        answered(child, replies),
        run(child, replies) == (RunState::Performing { phase: Phase::Exec }),
        phase.enabled(child),
        !(phase is Exec),
        !(phase is ParentCheck),
        forall|a: Action| #[trigger] super::is_action(child, phase, a) ==> a == action,
    ensures
        performed(child, order, replies, action),
{
    super::lemma_phase_at(phase);
    law_earlier_steps_succeeded(child, replies, Phase::Exec, phase);
    let k = choose|k: int| succeeded_at(child, replies, phase, k);
    lemma_answered_prefix(child, replies, k + 1);
    assert(replies.take(k + 1).drop_last() =~= replies.take(k));
    assert(replies[k] is Done);
    assert forall|command: Command| #[trigger]
        does_next(child, order, replies.take(k), command) implies command == Command::Perform(
        action,
    ) by {
        if let Command::Perform(a) = command {
            assert(super::is_action(child, phase, a));
        }
    }
    assert(performed_at(child, order, replies, action, k));
}

/// A child executes the command only after it has carried out every part of what it
/// was given, each with success and with what was given for it.
pub proof fn law_every_part_is_carried_out(
    child: &ChildSpec,
    order: ByteOrder,
    replies: Seq<Reply>,
    action: Action,
)
    requires
        answered(child, replies),
        does_next(child, order, replies, Command::Perform(action)),
        action is Execute,
    ensures
        action == (Action::Execute { command: child.command, assembled_env: child.env is Some }),
        child.process.pdeathsig matches Some(signal) ==> performed(
            child,
            order,
            replies,
            Action::SetParentDeathSignal(signal as u64),
        ),
        child.process.verify_parent_alive ==> exists|k: int| #[trigger]
            found_parent_at(child, order, replies, k),
        child.sync_fd matches Some(fd) ==> performed(
            child,
            order,
            replies,
            Action::ReadSyncByte(fd),
        ) && performed(child, order, replies, Action::CloseSync(fd)),
        child.process.dumpable ==> performed(child, order, replies, Action::SetDumpable(1)),
        !child.process.dumpable ==> performed(child, order, replies, Action::SetDumpable(0)),
        child.mounts matches Some(plan) ==> performed(
            child,
            order,
            replies,
            Action::SetupMounts(plan),
        ),
        child.hostname matches Some(name) ==> performed(
            child,
            order,
            replies,
            Action::SetHostname(name),
        ),
        child.bring_up_loopback ==> performed(child, order, replies, Action::BringUpLoopback),
        child.rlimits matches Some(limits) ==> performed(
            child,
            order,
            replies,
            Action::ApplyRlimits(limits),
        ),
        child.landlock matches Some(ruleset) ==> performed(
            child,
            order,
            replies,
            Action::ApplyLandlock(ruleset),
        ),
        child.env is Some ==> performed(child, order, replies, Action::PrepareEnv),
        child.caps matches Some(caps) ==> performed(
            child,
            order,
            replies,
            Action::ApplyCaps(caps),
        ),
        child.process.new_session ==> performed(child, order, replies, Action::NewSession),
        performed(child, order, replies, Action::ApplyFdActions(child.fds.actions)),
        child.fds.close_fds ==> exists|k: int| #[trigger] closed_others_at(
            child,
            order,
            replies,
            k,
        ),
        child.process.disable_tsc ==> performed(child, order, replies, Action::RestrictTsc),
        child.process.no_new_privs ==> performed(child, order, replies, Action::SetNoNewPrivs),
        child.process.mdwe_flags matches Some(flags) ==> performed(
            child,
            order,
            replies,
            Action::SetMdwe(flags),
        ),
        child.seccomp matches Some(filter) ==> performed(
            child,
            order,
            replies,
            Action::InstallSeccomp(filter),
        ),
        child.cwd matches Some(path) ==> performed(
            child,
            order,
            replies,
            Action::ChangeDir(path),
        ),
        child.completion matches Some(sink) ==> (exists|k: int| #[trigger] wrote_evidence_at(
            child,
            order,
            replies,
            k,
        )) && performed(child, order, replies, Action::CloseCompletion(sink.spec_fd())),
{
    assert(run(child, replies) == (RunState::Performing { phase: Phase::Exec }));
    if let Some(signal) = child.process.pdeathsig {
        lemma_performed(
            child,
            order,
            replies,
            Phase::ParentDeathSignal,
            Action::SetParentDeathSignal(signal as u64),
        );
    }
    if child.process.verify_parent_alive {
        lemma_found_parent(child, order, replies);
    }
    if let Some(fd) = child.sync_fd {
        lemma_performed(child, order, replies, Phase::SyncRead, Action::ReadSyncByte(fd));
        lemma_performed(child, order, replies, Phase::SyncClose, Action::CloseSync(fd));
    }
    if child.process.dumpable {
        lemma_performed(child, order, replies, Phase::Dumpable, Action::SetDumpable(1));
    } else {
        lemma_performed(child, order, replies, Phase::Dumpable, Action::SetDumpable(0));
    }
    if let Some(plan) = child.mounts {
        lemma_performed(child, order, replies, Phase::Mount, Action::SetupMounts(plan));
    }
    if let Some(name) = child.hostname {
        lemma_performed(child, order, replies, Phase::Hostname, Action::SetHostname(name));
    }
    if child.bring_up_loopback {
        lemma_performed(child, order, replies, Phase::Network, Action::BringUpLoopback);
    }
    if let Some(limits) = child.rlimits {
        lemma_performed(child, order, replies, Phase::Rlimit, Action::ApplyRlimits(limits));
    }
    if let Some(ruleset) = child.landlock {
        lemma_performed(child, order, replies, Phase::Landlock, Action::ApplyLandlock(ruleset));
    }
    if child.env is Some {
        lemma_performed(child, order, replies, Phase::Env, Action::PrepareEnv);
    }
    if let Some(caps) = child.caps {
        lemma_performed(child, order, replies, Phase::Capabilities, Action::ApplyCaps(caps));
    }
    if child.process.new_session {
        lemma_performed(child, order, replies, Phase::Setsid, Action::NewSession);
    }
    lemma_performed(
        child,
        order,
        replies,
        Phase::FdActions,
        Action::ApplyFdActions(child.fds.actions),
    );
    if child.fds.close_fds {
        lemma_closed_others(child, order, replies);
    }
    if child.process.disable_tsc {
        lemma_performed(child, order, replies, Phase::Tsc, Action::RestrictTsc);
    }
    if child.process.no_new_privs {
        lemma_performed(child, order, replies, Phase::NoNewPrivs, Action::SetNoNewPrivs);
    }
    if let Some(flags) = child.process.mdwe_flags {
        lemma_performed(child, order, replies, Phase::Mdwe, Action::SetMdwe(flags));
    }
    if let Some(filter) = child.seccomp {
        lemma_performed(child, order, replies, Phase::Seccomp, Action::InstallSeccomp(filter));
    }
    if let Some(path) = child.cwd {
        lemma_performed(child, order, replies, Phase::Cwd, Action::ChangeDir(path));
    }
    if let Some(sink) = child.completion {
        lemma_wrote_evidence(child, order, replies);
        lemma_performed(
            child,
            order,
            replies,
            Phase::CompletionClose,
            Action::CloseCompletion(sink.spec_fd()),
        );
    }
}

/// Whether the child asked for its parent as its command number `k`, and found one
/// that is not the first process, which takes over orphans.
pub open spec fn found_parent_at(
    child: &ChildSpec,
    order: ByteOrder,
    replies: Seq<Reply>,
    k: int,
) -> bool {
    &&& 0 <= k < replies.len()
    &&& replies[k] matches Reply::Parent(pid)
    &&& pid != 1
    &&& forall|command: Command| #[trigger]
        does_next(child, order, replies.take(k), command) ==> command == Command::Perform(
            Action::GetParent,
        )
}

/// Whether the child closed every descriptor but those that it keeps and those that
/// failures and evidence go to, as its command number `k`.
pub open spec fn closed_others_at(
    child: &ChildSpec,
    order: ByteOrder,
    replies: Seq<Reply>,
    k: int,
) -> bool {
    &&& 0 <= k < replies.len()
    &&& replies[k] is Done
    &&& forall|command: Command| #[trigger]
        does_next(child, order, replies.take(k), command) ==> (command matches Command::Perform(
            Action::CloseOtherFds { keep, extra_keep },
        ) && keep == child.fds.keep && (child.status_fd matches Some(fd) ==> extra_keep@[0] == fd)
            && (child.status_fd is None ==> extra_keep@[0] == -1) && (child.completion matches Some(
            sink,
        ) ==> extra_keep@[1] == sink.spec_fd()) && (child.completion is None ==> extra_keep@[1]
            == -1))
}

/// Whether the child wrote its evidence as its command number `k`: to the descriptor
/// of the sink, with the binding of the sink and every required stage.
pub open spec fn wrote_evidence_at(
    child: &ChildSpec,
    order: ByteOrder,
    replies: Seq<Reply>,
    k: int,
) -> bool {
    &&& 0 <= k < replies.len()
    &&& replies[k] is Done
    &&& forall|command: Command| #[trigger]
        does_next(child, order, replies.take(k), command) ==> (command matches Command::Perform(
            Action::WriteCompletion { fd, record },
        ) && fd == child.completion->0.spec_fd() && crate::completion::decode_error(
            record@,
            child.completion->0.spec_binding(),
        ) is None)
}

proof fn lemma_taken(child: &ChildSpec, replies: Seq<Reply>, phase: Phase) -> (k: int)
    requires
        answered(child, replies),
        run(child, replies) == (RunState::Performing { phase: Phase::Exec }),
        phase.enabled(child),
        !(phase is Exec),
    ensures
        0 <= k < replies.len(),
        run(child, replies.take(k)) == (RunState::Performing { phase }),
        super::answers(replies[k], RunState::Performing { phase }),
        run(child, replies.take(k + 1)) is Performing,
        replies[k] is Done || replies[k] is Parent,
{
    super::lemma_phase_at(phase);
    law_earlier_steps_succeeded(child, replies, Phase::Exec, phase);
    let k = choose|k: int| succeeded_at(child, replies, phase, k);
    lemma_answered_prefix(child, replies, k + 1);
    assert(replies.take(k + 1).drop_last() =~= replies.take(k));
    assert(replies.take(k + 1).last() == replies[k]);
    if !(run(child, replies.take(k + 1)) is Performing) {
        law_failure_is_final(child, replies.take(k + 1), replies.skip(k + 1));
        assert(replies.take(k + 1) + replies.skip(k + 1) =~= replies);
    }
    k
}

proof fn lemma_found_parent(child: &ChildSpec, order: ByteOrder, replies: Seq<Reply>)
    requires
        answered(child, replies),
        run(child, replies) == (RunState::Performing { phase: Phase::Exec }),
        child.process.verify_parent_alive,
    ensures
        exists|k: int| #[trigger] found_parent_at(child, order, replies, k),
{
    let k = lemma_taken(child, replies, Phase::ParentCheck);
    assert(replies.take(k + 1).drop_last() =~= replies.take(k));
    assert(replies.take(k + 1).last() == replies[k]);
    assert(run(child, replies.take(k + 1)) == super::stepping(
        child,
        run(child, replies.take(k)),
        replies[k],
    ));
    assert(found_parent_at(child, order, replies, k));
}

proof fn lemma_closed_others(child: &ChildSpec, order: ByteOrder, replies: Seq<Reply>)
    requires
        answered(child, replies),
        run(child, replies) == (RunState::Performing { phase: Phase::Exec }),
        child.fds.close_fds,
    ensures
        exists|k: int| #[trigger] closed_others_at(child, order, replies, k),
{
    let k = lemma_taken(child, replies, Phase::FdClose);
    assert(closed_others_at(child, order, replies, k));
}

proof fn lemma_wrote_evidence(child: &ChildSpec, order: ByteOrder, replies: Seq<Reply>)
    requires
        answered(child, replies),
        run(child, replies) == (RunState::Performing { phase: Phase::Exec }),
        child.completion is Some,
    ensures
        exists|k: int| #[trigger] wrote_evidence_at(child, order, replies, k),
{
    let k = lemma_taken(child, replies, Phase::CompletionWrite);
    assert forall|command: Command| #[trigger]
        does_next(child, order, replies.take(k), command) implies (command matches Command::Perform(
        Action::WriteCompletion { fd, record },
    ) && fd == child.completion->0.spec_fd() && crate::completion::decode_error(
        record@,
        child.completion->0.spec_binding(),
    ) is None) by {
        if let Command::Perform(Action::WriteCompletion { fd, record }) = command {
            let binding = child.completion->0.spec_binding();
            let whole = crate::completion::record_bytes(binding, COMPLETE_STAGE_MASK);
            assert(record@ == whole);
            assert(whole.len() == 42);
            assert(binding.len() == 32);
            crate::completion::law_decode_accepts_one_record(record@, binding);
        }
    }
    assert(wrote_evidence_at(child, order, replies, k));
}

/// A child takes no step that it was not given, and each with what was given for
/// it.
pub proof fn law_nothing_else_is_done(
    child: &ChildSpec,
    order: ByteOrder,
    replies: Seq<Reply>,
    action: Action,
)
    requires
        answered(child, replies),
        does_next(child, order, replies, Command::Perform(action)),
    ensures
        match action {
            Action::SetParentDeathSignal(signal) => child.process.pdeathsig matches Some(given)
                && signal == given as u64,
            Action::GetParent => child.process.verify_parent_alive,
            Action::ReadSyncByte(fd) => child.sync_fd == Some(fd),
            Action::CloseSync(fd) => child.sync_fd == Some(fd),
            Action::SetDumpable(value) => value == 1 && child.process.dumpable || value == 0
                && !child.process.dumpable,
            Action::SetupMounts(plan) => child.mounts == Some(plan),
            Action::SetHostname(name) => child.hostname == Some(name),
            Action::BringUpLoopback => child.bring_up_loopback,
            Action::ApplyRlimits(limits) => child.rlimits == Some(limits),
            Action::ApplyLandlock(ruleset) => child.landlock == Some(ruleset),
            Action::PrepareEnv => child.env is Some,
            Action::ApplyCaps(caps) => child.caps == Some(caps),
            Action::NewSession => child.process.new_session,
            Action::ApplyFdActions(actions) => actions == child.fds.actions,
            Action::CloseOtherFds { keep, .. } => child.fds.close_fds && keep == child.fds.keep,
            Action::RestrictTsc => child.process.disable_tsc,
            Action::SetNoNewPrivs => child.process.no_new_privs,
            Action::SetMdwe(flags) => child.process.mdwe_flags == Some(flags),
            Action::InstallSeccomp(filter) => child.seccomp == Some(filter),
            Action::ChangeDir(path) => child.cwd == Some(path),
            Action::WriteCompletion { fd, .. } => child.completion matches Some(sink) && fd
                == sink.spec_fd(),
            Action::CloseCompletion(fd) => child.completion matches Some(sink) && fd
                == sink.spec_fd(),
            Action::Execute { command, .. } => command == child.command,
        },
{
    lemma_performed_is_enabled(child, replies);
}

/// The place of a step in the order in which a child takes them.
pub open spec fn place(action: Action) -> int {
    match action {
        Action::SetParentDeathSignal(_) => 1,
        Action::GetParent => 2,
        Action::ReadSyncByte(_) => 3,
        Action::CloseSync(_) => 4,
        Action::SetDumpable(_) => 5,
        Action::SetupMounts(_) => 6,
        Action::SetHostname(_) => 7,
        Action::BringUpLoopback => 8,
        Action::ApplyRlimits(_) => 9,
        Action::ApplyLandlock(_) => 10,
        Action::PrepareEnv => 11,
        Action::ApplyCaps(_) => 12,
        Action::NewSession => 13,
        Action::ApplyFdActions(_) => 14,
        Action::CloseOtherFds { .. } => 15,
        Action::RestrictTsc => 16,
        Action::SetNoNewPrivs => 17,
        Action::SetMdwe(_) => 18,
        Action::InstallSeccomp(_) => 19,
        Action::ChangeDir(_) => 20,
        Action::WriteCompletion { .. } => 21,
        Action::CloseCompletion(_) => 22,
        Action::Execute { .. } => 23,
    }
}

/// The steps of a child come in one order, whatever it was given: so the filesystem
/// is built before anything that names a path, privileges are given up before the
/// filter is installed, and evidence comes last.
pub proof fn law_steps_come_in_order(
    child: &ChildSpec,
    order: ByteOrder,
    replies: Seq<Reply>,
    j: int,
    k: int,
    earlier: Action,
    later: Action,
)
    requires
        answered(child, replies),
        0 <= j < k <= replies.len(),
        does_next(child, order, replies.take(j), Command::Perform(earlier)),
        does_next(child, order, replies.take(k), Command::Perform(later)),
    ensures
        place(earlier) < place(later),
{
    lemma_ranks_grow(child, replies, j, k);
    lemma_place(child, run(child, replies.take(j)), order, earlier);
    lemma_place(child, run(child, replies.take(k)), order, later);
}

proof fn lemma_place(child: &ChildSpec, state: RunState, order: ByteOrder, action: Action)
    requires
        super::is_command(child, order, state, Command::Perform(action)),
    ensures
        state matches RunState::Performing { phase } && place(action) == phase.rank() + 1,
{
}

/// Every command but an exit can be answered, by any outcome that it can have, and
/// by no other. A command that was executed does not answer.
pub proof fn law_commands_can_be_answered(
    child: &ChildSpec,
    order: ByteOrder,
    replies: Seq<Reply>,
    command: Command,
    reply: Reply,
)
    requires
        answered(child, replies),
        does_next(child, order, replies, command),
    ensures
        answered(child, replies.push(reply)) <==> match command {
            Command::Perform(Action::GetParent) => reply is Parent,
            Command::Perform(Action::SetupMounts(_)) => reply is Done || reply is MountFailed,
            Command::Perform(Action::Execute { .. }) => reply is Failed,
            Command::Exit(_) => false,
            _ => reply is Done || reply is Failed,
        },
{
    assert(replies.push(reply).drop_last() =~= replies);
    if let Command::Perform(action) = command {
        lemma_place(child, run(child, replies), order, action);
    }
}

/// What a child tells of a step that did not go well: the number of its stage, the
/// error, which part of a stage it was, and the status that it exits with. Nothing
/// is told of a step that went well.
pub open spec fn told_of(action: Action, reply: Reply) -> Option<ChildFailure> {
    let stage = match action {
        Action::SetParentDeathSignal(_) => 1u16,
        Action::GetParent => 2,
        Action::ReadSyncByte(_) | Action::CloseSync(_) => 3,
        Action::SetDumpable(_) => 4,
        Action::SetupMounts(_) => 5,
        Action::SetHostname(_) => 6,
        Action::BringUpLoopback => 7,
        Action::ApplyRlimits(_) => 8,
        Action::ApplyLandlock(_) => 9,
        Action::PrepareEnv => 10,
        Action::ApplyCaps(_) => 11,
        Action::NewSession => 12,
        Action::ApplyFdActions(_) | Action::CloseOtherFds { .. } => 13,
        Action::RestrictTsc => 14,
        Action::SetNoNewPrivs => 15,
        Action::SetMdwe(_) => 16,
        Action::InstallSeccomp(_) => 17,
        Action::ChangeDir(_) => 18,
        Action::Execute { .. } => 19,
        Action::WriteCompletion { .. } | Action::CloseCompletion(_) => 20,
    };
    match reply {
        Reply::Done => None,
        Reply::Failed(err) => Some(
            ChildFailure {
                version: 1,
                stage,
                errno: err.0,
                detail: if action is CloseOtherFds {
                    1
                } else {
                    0
                },
                exit_code: if action is Execute && err.0 == ENOENT {
                    127
                } else {
                    126
                },
            },
        ),
        Reply::MountFailed(err) => Some(
            ChildFailure {
                version: 1,
                stage,
                errno: err.errno.0,
                detail: err.detail,
                exit_code: 126,
            },
        ),
        Reply::Parent(pid) => if pid == 1 {
            Some(ChildFailure { version: 1, stage, errno: 0, detail: 1, exit_code: 126 })
        } else {
            None
        },
    }
}

/// After a step that went well a child takes another; after one that did not it
/// tells of it: in a record on the status descriptor where there is one, and on
/// standard error otherwise.
pub proof fn law_failures_are_told(
    child: &ChildSpec,
    order: ByteOrder,
    replies: Seq<Reply>,
    action: Action,
    reply: Reply,
    command: Command,
)
    requires
        answered(child, replies.push(reply)),
        does_next(child, order, replies, Command::Perform(action)),
        does_next(child, order, replies.push(reply), command),
    ensures
        told_of(action, reply) is None ==> command is Perform,
        told_of(action, reply) matches Some(failure) ==> {
            &&& child.status_fd matches Some(status) ==> (command matches Command::WriteStatus {
                fd,
                record,
            } && fd == status && record@ == failure.layout(order))
            &&& child.status_fd is None ==> (command matches Command::WriteStderr { parts }
                && is_said(child, failure, parts@))
        },
{
    let longer = replies.push(reply);
    assert(longer.drop_last() =~= replies);
    lemma_place(child, run(child, replies), order, action);
    if let RunState::Performing { phase } = run(child, replies) {
        super::lemma_phase_at(phase);
        if !super::completion_is_valid(child) {
            law_rejected_before_setup(child, replies);
        }
        if phase.rank() < 22 {
            law_evidence_is_never_missing(child, phase.rank() + 1);
        }
        if let Some(failure) = told_of(action, reply) {
            lemma_is_said(child, order, run(child, longer), failure, command);
        }
    }
}

/// Whether `parts` say on standard error what `failure` is: the line of its stage,
/// or, where the command could not be executed, why and which command.
pub open spec fn is_said(child: &ChildSpec, failure: ChildFailure, parts: Seq<&[u8]>) -> bool {
    &&& parts.len() == 3
    &&& failure.stage == 19 ==> parts[1]@ == child.command.path@ && parts[2]@
        == vstd::utf8::encode_utf8("\n"@) && parts[0]@ == vstd::utf8::encode_utf8(
        if failure.errno == ENOENT {
            "pnut: command not found: "@
        } else if failure.errno == crate::sys::EACCES {
            "pnut: permission denied: "@
        } else {
            "pnut: exec failed: "@
        },
    )
    &&& failure.stage != 19 ==> parts[1]@.len() == 0 && parts[2]@.len() == 0 && (
    crate::report::Stage::numbered(failure.stage) matches Some(stage) && parts[0]@
        == vstd::utf8::encode_utf8(stage.fallback_text()))
}

proof fn lemma_is_said(
    child: &ChildSpec,
    order: ByteOrder,
    state: RunState,
    failure: ChildFailure,
    command: Command,
)
    requires
        super::is_command(child, order, state, command),
    ensures
        state matches RunState::Stderr { fault } ==> (super::failure_of(fault) == failure ==> (
        command matches Command::WriteStderr { parts } && is_said(child, failure, parts@))),
{
    if let RunState::Stderr { fault } = state {
        if super::failure_of(fault) == failure {
            if let Command::WriteStderr { parts } = command {
                let said = parts@.map(|i: int, part: &[u8]| part@);
                assert(said == super::fallback_of(child, fault));
                assert(said[0] == parts@[0]@ && said[1] == parts@[1]@ && said[2] == parts@[2]@);
                crate::report::law_stage_numbers(fault.stage, failure.stage);
                crate::report::law_stage_numbers(crate::report::Stage::Exec, failure.stage);
            }
        }
    }
}

/// A child that has told of a failure exits with the status that it told; if the
/// record could not be written, it first says on standard error what it is.
pub proof fn law_failed_child_exits(
    child: &ChildSpec,
    order: ByteOrder,
    replies: Seq<Reply>,
    action: Action,
    reply: Reply,
    answer: Reply,
    last: Reply,
    command: Command,
    end: Command,
)
    requires
        answered(child, replies.push(reply).push(answer)),
        does_next(child, order, replies, Command::Perform(action)),
        told_of(action, reply) is Some,
        does_next(child, order, replies.push(reply).push(answer), command),
        does_next(child, order, replies.push(reply).push(answer).push(last), end),
    ensures
        child.status_fd is None || answer is Done ==> command == Command::Exit(
            told_of(action, reply)->0.exit_code,
        ),
        child.status_fd is Some && !(answer is Done) ==> (command matches Command::WriteStderr {
            parts,
        } && is_said(child, told_of(action, reply)->0, parts@)) && end == Command::Exit(
            told_of(action, reply)->0.exit_code,
        ),
{
    let a = replies.push(reply);
    let b = a.push(answer);
    let c = b.push(last);
    assert(a.drop_last() =~= replies);
    assert(b.drop_last() =~= a);
    assert(c.drop_last() =~= b);
    lemma_place(child, run(child, replies), order, action);
    lemma_is_said(child, order, run(child, b), told_of(action, reply)->0, command);
    assert(answered(child, a));
    assert(run(child, a) == super::stepping(child, run(child, replies), reply));
    assert(run(child, b) == super::stepping(child, run(child, a), answer));
    assert(run(child, c) == super::stepping(child, run(child, b), last));
}

/// Completion evidence is promised only where it can be given: a child that is asked
/// for it takes a step only if evidence and failures have descriptors of their own,
/// which no action touches and which are not the sync pipe, and if every required
/// part is configured. Otherwise it says so and exits, and takes no step at all. A
/// child that is not asked for evidence always starts.
pub proof fn law_when_a_child_starts(child: &ChildSpec, order: ByteOrder, command: Command)
    requires
        does_next(child, order, Seq::empty(), command),
    ensures
        child.completion is None ==> command is Perform,
        child.completion matches Some(sink) ==> (command is Perform <==> {
            &&& sink.spec_fd() >= 0
            &&& child.status_fd is Some
            &&& child.status_fd->0 >= 0
            &&& child.status_fd->0 != sink.spec_fd()
            &&& child.sync_fd is Some ==> child.sync_fd->0 != sink.spec_fd() && child.sync_fd->0
                != child.status_fd->0
            &&& child.mounts is Some && child.rlimits is Some && child.caps is Some
                && child.seccomp is Some
            &&& child.fds.close_fds && child.process.no_new_privs
            &&& forall|i: int|
                0 <= i < child.fds.actions@.len() ==> match #[trigger] child.fds.actions@[i] {
                    FdAction::Close(fd) => fd != sink.spec_fd() && fd != child.status_fd->0,
                    FdAction::Dup2 { src, dst } => src != sink.spec_fd() && dst != sink.spec_fd()
                        && src != child.status_fd->0 && dst != child.status_fd->0,
                }
        }),
        !(command is Perform) ==> {
            let failure = ChildFailure {
                version: 1,
                stage: 20,
                errno: 0,
                detail: 1,
                exit_code: 126,
            };
            &&& child.status_fd matches Some(status) ==> (command matches Command::WriteStatus {
                fd,
                record,
            } && fd == status && record@ == failure.layout(order))
            &&& child.status_fd is None ==> (command matches Command::WriteStderr { parts }
                && is_said(child, failure, parts@))
        },
{
    super::lemma_first_enabled(child, 0);
    if super::completion_is_valid(child) {
        law_evidence_is_never_missing(child, 0);
    } else {
        let failure = ChildFailure { version: 1, stage: 20, errno: 0, detail: 1, exit_code: 126 };
        lemma_is_said(child, order, run(child, Seq::empty()), failure, command);
    }
    if let Some(sink) = child.completion {
        if command is Perform {
            assert forall|i: int| 0 <= i < child.fds.actions@.len() implies match #[trigger]
                child.fds.actions@[i] {
                FdAction::Close(fd) => fd != sink.spec_fd() && fd != child.status_fd->0,
                FdAction::Dup2 { src, dst } => src != sink.spec_fd() && dst != sink.spec_fd()
                    && src != child.status_fd->0 && dst != child.status_fd->0,
            } by {
                assert(!super::touches(child.fds.actions@[i], sink.spec_fd()));
            }
        } else if child.status_fd is Some {
            assert(!super::completion_is_valid(child));
        }
    }
}

/// A child that was turned away exits, with the status of a failed setup.
pub proof fn law_rejected_child_exits(
    child: &ChildSpec,
    order: ByteOrder,
    answer: Reply,
    last: Reply,
    first: Command,
    command: Command,
    end: Command,
)
    requires
        does_next(child, order, Seq::empty(), first),
        !(first is Perform),
        does_next(child, order, seq![answer], command),
        does_next(child, order, seq![answer, last], end),
    ensures
        child.status_fd is None || answer is Done ==> command == Command::Exit(126),
        child.status_fd is Some && !(answer is Done) ==> command is WriteStderr && end
            == Command::Exit(126),
{
    assert(seq![answer].drop_last() =~= Seq::<Reply>::empty());
    assert(seq![answer, last].drop_last() =~= seq![answer]);
    if super::completion_is_valid(child) {
        law_evidence_is_never_missing(child, 0);
    }
}

/// A child starts where every run of it begins.
pub proof fn law_where_a_child_starts<'s>(
    child: &'s ChildSpec,
    order: ByteOrder,
    r: (super::Runtime, Command<'s>),
)
    requires
        call_ensures(super::Runtime::start, (child, order), r),
    ensures
        r.0.state() == run(child, Seq::empty()),
        r.0.order() == order,
        does_next(child, order, Seq::empty(), r.1),
{
}

} // verus!
