//! What holds of every launch.

use vstd::prelude::*;

use super::{AfterSync, Failure, LaunchCommand, LaunchReply, LaunchState, PipeEnd, Verdict};
use crate::bytes::ByteOrder;
use crate::clone::{ChildHandle, CloneResult};
use crate::config::Sandbox;
use crate::error::{Cause, Errno, Error};
use crate::idmap::IdMapFile;
use crate::report::{ChildFailure, CHILD_FAILURE_LEN};
use crate::sys::EBADF;

verus! {

/// Where a launch stands after the given replies.
pub open spec fn run(replies: Seq<LaunchReply>, order: ByteOrder) -> LaunchState
    decreases replies.len(),
{
    if replies.len() == 0 {
        LaunchState::OpeningSync
    } else {
        super::stepping(run(replies.drop_last(), order), replies.last(), order)
    }
}

/// Whether each reply can be the answer to the command it follows.
pub open spec fn answered(replies: Seq<LaunchReply>, order: ByteOrder) -> bool
    decreases replies.len(),
{
    replies.len() == 0 || answered(replies.drop_last(), order) && super::answers(
        replies.last(),
        run(replies.drop_last(), order),
    )
}

/// Once the signals have been blocked, the parent returns only right after it has
/// unblocked them, whatever the launch comes to. They have been blocked exactly
/// if it has come to starting the child.
pub proof fn law_signals_are_restored(
    replies: Seq<LaunchReply>,
    order: ByteOrder,
    verdict: Verdict,
    j: int,
)
    requires
        answered(replies, order),
        0 <= j <= replies.len(),
        run(replies.take(j), order) is Cloning,
        run(replies, order) == (LaunchState::Returned { verdict }),
    ensures
        replies.len() > 0,
        run(replies.drop_last(), order) == (LaunchState::Unblocking { verdict }),
{
    if j == replies.len() {
        assert(replies.take(j) =~= replies);
    }
    let before = replies.drop_last();
    lemma_rank_of_prefix(before, order, j);
    assert(before.take(j) =~= replies.take(j));
}

/// Before the signals are blocked, a launch ends only because there is no pipe or
/// the signals cannot be blocked: every other end comes after starting the child.
pub proof fn law_early_ends(replies: Seq<LaunchReply>, order: ByteOrder, verdict: Verdict)
    requires
        answered(replies, order),
        run(replies, order) == (LaunchState::Returned { verdict }),
    ensures
        verdict == Verdict::Failure(Failure::SyncPipe) || verdict == Verdict::Failure(
            Failure::StatusPipe,
        ) || verdict == Verdict::Failure(Failure::Block) || exists|j: int|
            0 <= j <= replies.len() && #[trigger] run(replies.take(j), order) is Cloning,
{
    let before = replies.drop_last();
    if run(before, order) is Unblocking {
        lemma_comes_through_cloning(before, order);
        let j = choose|j: int|
            0 <= j <= before.len() && #[trigger] run(before.take(j), order) is Cloning;
        assert(before.take(j) =~= replies.take(j));
    }
}

proof fn lemma_comes_through_cloning(replies: Seq<LaunchReply>, order: ByteOrder)
    requires
        answered(replies, order),
        rank(run(replies, order)) >= 3,
        !(run(replies, order) is Returned),
    ensures
        exists|j: int| 0 <= j <= replies.len() && #[trigger] run(replies.take(j), order) is Cloning,
    decreases replies.len(),
{
    if run(replies, order) is Cloning {
        assert(replies.take(replies.len() as int) =~= replies);
    } else {
        let before = replies.drop_last();
        assert(rank(run(before, order)) >= 3);
        lemma_comes_through_cloning(before, order);
        let j = choose|j: int|
            0 <= j <= before.len() && #[trigger] run(before.take(j), order) is Cloning;
        assert(before.take(j) =~= replies.take(j));
    }
}

/// A child is started only after both pipes are open and the signals are
/// blocked, so that none is lost.
pub proof fn law_signals_are_blocked_before_the_child_starts(
    replies: Seq<LaunchReply>,
    order: ByteOrder,
)
    requires
        answered(replies, order),
        run(replies, order) is Cloning,
    ensures
        replies.len() == 3,
        run(replies.take(0), order) is OpeningSync,
        run(replies.take(1), order) is OpeningStatus,
        run(replies.take(2), order) is Blocking,
        forall|k: int| 0 <= k < 3 ==> #[trigger] replies[k] is Done,
{
    let a = replies.drop_last();
    let b = a.drop_last();
    let c = b.drop_last();
    assert(answered(a, order));
    assert(run(a, order) is Blocking);
    assert(answered(b, order));
    assert(run(b, order) is OpeningStatus);
    assert(answered(c, order));
    assert(run(c, order) is OpeningSync);
    lemma_rank_of_prefix(c, order, 0);
    assert(c.len() == 0);
    assert(replies.take(2) =~= a);
    assert(replies.take(1) =~= b);
    assert(replies.take(0) =~= c);
    assert(replies[2] == replies.last() && replies[1] == a.last() && replies[0] == b.last());
}

/// A child carries out its spec only after it has unblocked the signals and
/// closed the ends of the pipes that are its parent's.
pub proof fn law_child_starts_clean(replies: Seq<LaunchReply>, order: ByteOrder)
    requires
        answered(replies, order),
        run(replies, order) is ChildRunning,
    ensures
        replies.len() >= 2,
        run(replies.take(replies.len() - 1), order) is ChildClosing,
        run(replies.take(replies.len() - 2), order) is ChildUnblocking,
{
    let a = replies.drop_last();
    let b = a.drop_last();
    assert(answered(a, order));
    assert(run(a, order) is ChildClosing);
    assert(answered(b, order));
    assert(run(b, order) is ChildUnblocking);
    assert(replies.take(replies.len() - 1) =~= a);
    assert(replies.take(replies.len() - 2) =~= b);
}

/// A child is let go only when it may not change its groups and both maps are
/// written, in this order.
pub proof fn law_child_is_released_only_when_mapped(replies: Seq<LaunchReply>, order: ByteOrder)
    requires
        answered(replies, order),
        run(replies, order) is Releasing,
    ensures
        replies.len() >= 3,
        run(replies.take(replies.len() - 3), order) == (LaunchState::Mapping {
            file: IdMapFile::Setgroups,
        }),
        replies[replies.len() - 3] is Done,
        run(replies.take(replies.len() - 2), order) == (LaunchState::Mapping {
            file: IdMapFile::UidMap,
        }),
        replies[replies.len() - 2] is Done,
        run(replies.take(replies.len() - 1), order) == (LaunchState::Mapping {
            file: IdMapFile::GidMap,
        }),
        replies[replies.len() - 1] is Done,
{
    let a = replies.drop_last();
    let b = a.drop_last();
    let c = b.drop_last();
    assert(answered(a, order));
    assert(run(a, order) == (LaunchState::Mapping { file: IdMapFile::GidMap }));
    assert(answered(b, order));
    assert(run(b, order) == (LaunchState::Mapping { file: IdMapFile::UidMap }));
    assert(answered(c, order));
    assert(run(c, order) == (LaunchState::Mapping { file: IdMapFile::Setgroups }));
    assert(replies.take(replies.len() - 1) =~= a);
    assert(replies.take(replies.len() - 2) =~= b);
    assert(replies.take(replies.len() - 3) =~= c);
    assert(a.last() == replies[replies.len() - 2]);
    assert(b.last() == replies[replies.len() - 3]);
}

/// How far a launch has come.
pub open spec fn rank(state: LaunchState) -> int {
    match state {
        LaunchState::OpeningSync => 0,
        LaunchState::OpeningStatus => 1,
        LaunchState::Blocking => 2,
        LaunchState::Cloning => 3,
        LaunchState::ChildUnblocking => 4,
        LaunchState::ChildClosing => 5,
        LaunchState::ChildRunning => 6,
        LaunchState::ParentClosing => 4,
        LaunchState::Mapping { file } => match file {
            IdMapFile::Setgroups => 5,
            IdMapFile::UidMap => 6,
            IdMapFile::GidMap => 7,
        },
        LaunchState::Releasing => 8,
        LaunchState::ClosingSync { .. } => 9,
        LaunchState::Reaping { .. } => 10,
        LaunchState::Supervising => 10,
        LaunchState::ReadingStatus { .. } => 11,
        LaunchState::Unblocking { .. } => 12,
        LaunchState::Returned { .. } => 13,
    }
}

proof fn lemma_rank_grows(replies: Seq<LaunchReply>, order: ByteOrder)
    requires
        answered(replies, order),
        replies.len() > 0,
    ensures
        rank(run(replies.drop_last(), order)) < rank(run(replies, order)),
{
}

proof fn lemma_rank_of_prefix(replies: Seq<LaunchReply>, order: ByteOrder, j: int)
    requires
        answered(replies, order),
        0 <= j <= replies.len(),
    ensures
        rank(run(replies.take(j), order)) + (replies.len() - j) <= rank(run(replies, order)),
    decreases replies.len(),
{
    if j < replies.len() {
        lemma_rank_grows(replies, order);
        lemma_rank_of_prefix(replies.drop_last(), order, j);
        assert(replies.drop_last().take(j) =~= replies.take(j));
    } else {
        assert(replies.take(j) =~= replies);
    }
}

/// Every launch ends: it takes at most thirteen answers.
pub proof fn law_launch_ends(replies: Seq<LaunchReply>, order: ByteOrder)
    requires
        answered(replies, order),
    ensures
        replies.len() <= 13,
{
    lemma_rank_of_prefix(replies, order, 0);
    assert(replies.take(0) =~= Seq::empty());
}

/// A child whose maps could not be written is never let go, and it is awaited.
pub proof fn law_unmapped_child_is_reaped(
    replies: Seq<LaunchReply>,
    order: ByteOrder,
    file: IdMapFile,
    j: int,
)
    requires
        answered(replies, order),
        run(replies, order) == (LaunchState::Unblocking {
            verdict: Verdict::Failure(Failure::IdMap(file)),
        }),
        0 <= j <= replies.len(),
    ensures
        !(run(replies.take(j), order) is Releasing),
        replies.len() > 0,
        run(replies.drop_last(), order) == (LaunchState::Reaping { file }),
{
    let a = replies.drop_last();
    let b = a.drop_last();
    let c = b.drop_last();
    assert(answered(a, order));
    assert(run(a, order) == (LaunchState::Reaping { file }));
    assert(answered(b, order));
    assert(run(b, order) == (LaunchState::ClosingSync { after: AfterSync::Reap(file) }));
    assert(answered(c, order));
    assert(run(c, order) == (LaunchState::Mapping { file }));
    if j <= c.len() {
        lemma_rank_of_prefix(c, order, j);
        assert(c.take(j) =~= replies.take(j));
    } else if j == c.len() + 1 {
        assert(replies.take(j) =~= b);
    } else if j == c.len() + 2 {
        assert(replies.take(j) =~= a);
    } else {
        assert(replies.take(j) =~= replies);
    }
}

/// A launch succeeds only with the status that the supervision returned, and
/// only if the child told of no failure.
pub proof fn law_success_is_the_childs(replies: Seq<LaunchReply>, order: ByteOrder, code: i32)
    requires
        answered(replies, order),
        run(replies, order) == (LaunchState::Returned { verdict: Verdict::Success { code } }),
    ensures
        replies.len() >= 3,
        replies[replies.len() - 3] matches LaunchReply::Supervised(result) && result matches Ok(
            status,
        ) && status == code,
        replies[replies.len() - 2] matches LaunchReply::Status { read, record }
            && !crate::failure::says_failed(read, record@, order),
{
    let a = replies.drop_last();
    let b = a.drop_last();
    assert(answered(a, order));
    assert(run(a, order) == (LaunchState::Unblocking { verdict: Verdict::Success { code } }));
    assert(answered(b, order));
    assert(run(b, order) == (LaunchState::ReadingStatus { code }));
    assert(run(b.drop_last(), order) == LaunchState::Supervising);
    assert(a.last() == replies[replies.len() - 2]);
    assert(b.last() == replies[replies.len() - 3]);
}

/// The child that a parent holds after the given replies.
pub open spec fn child_after(replies: Seq<LaunchReply>) -> Option<ChildHandle>
    decreases replies.len(),
{
    if replies.len() == 0 {
        None
    } else {
        match replies.last() {
            LaunchReply::Cloned(answer) => crate::clone::handle_of(answer),
            _ => child_after(replies.drop_last()),
        }
    }
}

/// Whether `command` is what a launch of `sandbox` does next after the given replies.
pub open spec fn does_next(
    sandbox: Sandbox,
    order: ByteOrder,
    replies: Seq<LaunchReply>,
    command: LaunchCommand,
) -> bool {
    super::is_command(sandbox, child_after(replies), run(replies, order), command)
}

proof fn lemma_pushed(replies: Seq<LaunchReply>, order: ByteOrder, reply: LaunchReply)
    ensures
        run(replies.push(reply), order) == super::stepping(run(replies, order), reply, order),
        !(reply is Cloned) ==> child_after(replies.push(reply)) == child_after(replies),
        reply matches LaunchReply::Cloned(answer) ==> child_after(replies.push(reply))
            == crate::clone::handle_of(answer),
        answered(replies.push(reply), order) <==> answered(replies, order) && super::answers(
            reply,
            run(replies, order),
        ),
{
    assert(replies.push(reply).drop_last() =~= replies);
}

/// A launch opens its two pipes, blocks the signals and starts the child, in the
/// namespaces that the sandbox asks for; if one of the first three fails, that is the
/// end of it.
pub proof fn law_way_to_the_child(
    sandbox: Sandbox,
    order: ByteOrder,
    failed: LaunchReply,
    a: LaunchCommand,
    b: LaunchCommand,
    c: LaunchCommand,
    d: LaunchCommand,
    ends: Seq<LaunchCommand>,
    args: crate::clone::CloneArgs,
)
    requires
        does_next(sandbox, order, seq![], a),
        does_next(sandbox, order, seq![LaunchReply::Done], b),
        does_next(sandbox, order, seq![LaunchReply::Done, LaunchReply::Done], c),
        does_next(
            sandbox,
            order,
            seq![LaunchReply::Done, LaunchReply::Done, LaunchReply::Done],
            d,
        ),
        failed is Failed || failed is BlockFailed,
        ends.len() == 3,
        does_next(sandbox, order, seq![failed], ends[0]),
        does_next(sandbox, order, seq![LaunchReply::Done, failed], ends[1]),
        does_next(sandbox, order, seq![LaunchReply::Done, LaunchReply::Done, failed], ends[2]),
        call_ensures(crate::clone::clone_args, (&sandbox.namespaces,), args),
    ensures
        a is OpenSyncPipe,
        b is OpenStatusPipe,
        c is BlockSignals,
        d == LaunchCommand::Clone(args),
        failed is Failed ==> ends[0] is Return && ends[0]->Return_0 is Err && ends[1] is Return
            && ends[1]->Return_0 is Err,
        failed is BlockFailed ==> ends[2] is Return && ends[2]->Return_0 is Err,
{
    let none = Seq::<LaunchReply>::empty();
    let one = none.push(LaunchReply::Done);
    let two = one.push(LaunchReply::Done);
    lemma_pushed(none, order, LaunchReply::Done);
    lemma_pushed(one, order, LaunchReply::Done);
    lemma_pushed(two, order, LaunchReply::Done);
    lemma_pushed(none, order, failed);
    lemma_pushed(one, order, failed);
    lemma_pushed(two, order, failed);
    assert(seq![LaunchReply::Done] =~= one);
    assert(seq![LaunchReply::Done, LaunchReply::Done] =~= two);
    assert(seq![LaunchReply::Done, LaunchReply::Done, LaunchReply::Done] =~= two.push(
        LaunchReply::Done,
    ));
    assert(seq![failed] =~= none.push(failed));
    assert(seq![LaunchReply::Done, failed] =~= one.push(failed));
    assert(seq![LaunchReply::Done, LaunchReply::Done, failed] =~= two.push(failed));
}

/// The process that `clone3` answered with zero is the child: it unblocks the signals,
/// closes the ends that are its parent's, and carries out its spec with its own.
pub proof fn law_the_child_runs(
    sandbox: Sandbox,
    order: ByteOrder,
    replies: Seq<LaunchReply>,
    answer: CloneResult,
    start: LaunchCommand,
    a: LaunchCommand,
    b: LaunchCommand,
    c: LaunchCommand,
)
    requires
        answered(replies, order),
        does_next(sandbox, order, replies, start),
        start is Clone,
        answer.ret == 0,
        does_next(sandbox, order, replies.push(LaunchReply::Cloned(answer)), a),
        does_next(
            sandbox,
            order,
            replies.push(LaunchReply::Cloned(answer)).push(LaunchReply::Done),
            b,
        ),
        does_next(
            sandbox,
            order,
            replies.push(LaunchReply::Cloned(answer)).push(LaunchReply::Done).push(
                LaunchReply::Done,
            ),
            c,
        ),
    ensures
        a is UnblockSignals,
        b matches LaunchCommand::Close(ends) && ends@ == seq![
            PipeEnd::SyncWrite,
            PipeEnd::StatusRead,
        ],
        c == (LaunchCommand::RunChild { sync: PipeEnd::SyncRead, status: PipeEnd::StatusWrite }),
{
    let x = replies.push(LaunchReply::Cloned(answer));
    let y = x.push(LaunchReply::Done);
    lemma_pushed(replies, order, LaunchReply::Cloned(answer));
    lemma_pushed(x, order, LaunchReply::Done);
    lemma_pushed(y, order, LaunchReply::Done);
}

/// A parent without a child, or without a descriptor of it, unblocks the signals and
/// fails.
pub proof fn law_failed_start(
    sandbox: Sandbox,
    order: ByteOrder,
    replies: Seq<LaunchReply>,
    answer: CloneResult,
    start: LaunchCommand,
    a: LaunchCommand,
    b: LaunchCommand,
)
    requires
        answered(replies, order),
        does_next(sandbox, order, replies, start),
        start is Clone,
        answer.ret == -1 || answer.ret != 0 && answer.pidfd < 0,
        does_next(sandbox, order, replies.push(LaunchReply::Cloned(answer)), a),
        does_next(
            sandbox,
            order,
            replies.push(LaunchReply::Cloned(answer)).push(LaunchReply::Done),
            b,
        ),
    ensures
        a is UnblockSignals,
        b matches LaunchCommand::Return(result) && result is Err,
{
    let x = replies.push(LaunchReply::Cloned(answer));
    lemma_pushed(replies, order, LaunchReply::Cloned(answer));
    lemma_pushed(x, order, LaunchReply::Done);
}

/// A parent that has a child closes the ends that are the child's, says of the child
/// that it may not change its groups, writes its two maps, lets it go, closes the
/// sync pipe and supervises it, with signals passed on if the sandbox asks for it.
pub proof fn law_the_parent_lets_the_child_go(
    sandbox: Sandbox,
    order: ByteOrder,
    replies: Seq<LaunchReply>,
    answer: CloneResult,
    start: LaunchCommand,
    commands: Seq<LaunchCommand>,
)
    requires
        answered(replies, order),
        does_next(sandbox, order, replies, start),
        start is Clone,
        answer.ret != -1,
        answer.ret != 0,
        answer.pidfd >= 0,
        sandbox.uid_map is Some,
        sandbox.gid_map is Some,
        commands.len() == 7,
        forall|n: int| 0 <= n < 7 ==> does_next(
            sandbox,
            order,
            all_well(replies.push(LaunchReply::Cloned(answer)), n),
            #[trigger] commands[n],
        ),
    ensures
        commands[0] matches LaunchCommand::Close(ends) && ends@ == seq![
            PipeEnd::SyncRead,
            PipeEnd::StatusWrite,
        ],
        commands[1] matches LaunchCommand::WriteFile { path, content } && path@ == "/proc/"@
            + crate::text::signed_decimal(answer.ret as i32 as int) + "/setgroups"@ && content@
            == "deny"@,
        commands[2] matches LaunchCommand::WriteFile { path, content } && path@ == "/proc/"@
            + crate::text::signed_decimal(answer.ret as i32 as int) + "/uid_map"@ && content@
            == crate::text::decimal(sandbox.uid_map->0.inside as nat) + " "@
            + crate::text::decimal(sandbox.uid_map->0.outside as nat) + " "@
            + crate::text::decimal(sandbox.uid_map->0.count as nat) + "\n"@,
        commands[3] matches LaunchCommand::WriteFile { path, content } && path@ == "/proc/"@
            + crate::text::signed_decimal(answer.ret as i32 as int) + "/gid_map"@ && content@
            == crate::text::decimal(sandbox.gid_map->0.inside as nat) + " "@
            + crate::text::decimal(sandbox.gid_map->0.outside as nat) + " "@
            + crate::text::decimal(sandbox.gid_map->0.count as nat) + "\n"@,
        commands[4] is Release,
        commands[5] is CloseSync,
        commands[6] == (LaunchCommand::Supervise {
            forward_signals: sandbox.process.forward_signals,
        }),
{
    let x = replies.push(LaunchReply::Cloned(answer));
    lemma_pushed(replies, order, LaunchReply::Cloned(answer));
    let x0 = all_well(x, 0);
    assert(x0 == x);
    let x1 = all_well(x, 1);
    lemma_pushed(x0, order, LaunchReply::Done);
    let x2 = all_well(x, 2);
    lemma_pushed(x1, order, LaunchReply::Done);
    let x3 = all_well(x, 3);
    lemma_pushed(x2, order, LaunchReply::Done);
    let x4 = all_well(x, 4);
    lemma_pushed(x3, order, LaunchReply::Done);
    let x5 = all_well(x, 5);
    lemma_pushed(x4, order, LaunchReply::Done);
    let x6 = all_well(x, 6);
    lemma_pushed(x5, order, LaunchReply::Done);
    assert(does_next(sandbox, order, x0, commands[0]));
    assert(does_next(sandbox, order, x1, commands[1]));
    assert(does_next(sandbox, order, x2, commands[2]));
    assert(does_next(sandbox, order, x3, commands[3]));
    assert(does_next(sandbox, order, x4, commands[4]));
    assert(does_next(sandbox, order, x5, commands[5]));
    assert(does_next(sandbox, order, x6, commands[6]));
}

/// The given replies, and `n` commands more that went well.
pub open spec fn all_well(replies: Seq<LaunchReply>, n: int) -> Seq<LaunchReply>
    decreases n,
{
    if n <= 0 {
        replies
    } else {
        all_well(replies, n - 1).push(LaunchReply::Done)
    }
}

/// When the child has ended, the parent reads the status pipe, unblocks the signals and
/// returns: the status of the child if the child told of no failure, and an error
/// otherwise. A parent that could not supervise its child unblocks the signals and
/// returns the error.
pub proof fn law_end_of_a_launch(
    sandbox: Sandbox,
    order: ByteOrder,
    replies: Seq<LaunchReply>,
    result: Result<i32, Error>,
    read: isize,
    failure: ChildFailure,
    record: [u8; CHILD_FAILURE_LEN],
    start: LaunchCommand,
    a: LaunchCommand,
    b: LaunchCommand,
    c: LaunchCommand,
    gave_up: LaunchCommand,
)
    requires
        answered(replies, order),
        does_next(sandbox, order, replies, start),
        start is Supervise,
        call_ensures(ChildFailure::to_bytes, (&failure, order), record),
        does_next(sandbox, order, replies.push(LaunchReply::Supervised(result)), a),
        does_next(
            sandbox,
            order,
            replies.push(LaunchReply::Supervised(result)).push(
                LaunchReply::Status { read, record },
            ),
            b,
        ),
        does_next(
            sandbox,
            order,
            replies.push(LaunchReply::Supervised(result)).push(
                LaunchReply::Status { read, record },
            ).push(LaunchReply::Done),
            c,
        ),
        does_next(
            sandbox,
            order,
            replies.push(LaunchReply::Supervised(result)).push(LaunchReply::Done),
            gave_up,
        ),
    ensures
        result matches Ok(code) ==> {
            &&& a is ReadStatus
            &&& b is UnblockSignals
            &&& read != 16 || failure.version != 1 ==> c == LaunchCommand::Return(
                Ok::<i32, Error>(code),
            )
            &&& read == 16 && failure.version == 1 ==> c is Return && c->Return_0 is Err
        },
        result is Err ==> a is UnblockSignals && gave_up is Return && gave_up->Return_0 is Err,
{
    let x = replies.push(LaunchReply::Supervised(result));
    let status = LaunchReply::Status { read, record };
    let y = x.push(status);
    lemma_pushed(replies, order, LaunchReply::Supervised(result));
    lemma_pushed(x, order, status);
    lemma_pushed(y, order, LaunchReply::Done);
    lemma_pushed(x, order, LaunchReply::Done);
    assert(record@.take(2) =~= crate::bytes::bytes16(failure.version, order));
    if record@.take(2) == crate::bytes::bytes16(1, order) {
        crate::bytes::law_bytes16_injective(failure.version, 1, order);
    }
}

/// A parent that cannot write a file of the child closes the sync pipe, so that the
/// child gives up, awaits it, unblocks the signals and fails. One that cannot let the
/// child go does the same without waiting.
pub proof fn law_child_that_cannot_go(
    sandbox: Sandbox,
    order: ByteOrder,
    replies: Seq<LaunchReply>,
    cause: Cause,
    start: LaunchCommand,
    commands: Seq<LaunchCommand>,
)
    requires
        answered(replies, order),
        does_next(sandbox, order, replies, start),
        start is WriteFile || start is Release,
        commands.len() == 4,
        forall|n: int| 0 <= n < 4 ==> does_next(
            sandbox,
            order,
            all_well(replies.push(LaunchReply::Failed(cause)), n),
            #[trigger] commands[n],
        ),
    ensures
        commands[0] is CloseSync,
        start is WriteFile ==> commands[1] is Reap && commands[2] is UnblockSignals
            && commands[3] is Return && commands[3]->Return_0 is Err,
        start is Release ==> commands[1] is UnblockSignals && commands[2] is Return
            && commands[2]->Return_0 is Err,
{
    let x = replies.push(LaunchReply::Failed(cause));
    lemma_pushed(replies, order, LaunchReply::Failed(cause));
    let x0 = all_well(x, 0);
    assert(x0 == x);
    let x1 = all_well(x, 1);
    lemma_pushed(x0, order, LaunchReply::Done);
    let x2 = all_well(x, 2);
    lemma_pushed(x1, order, LaunchReply::Done);
    let x3 = all_well(x, 3);
    lemma_pushed(x2, order, LaunchReply::Done);
    assert(does_next(sandbox, order, x0, commands[0]));
    assert(does_next(sandbox, order, x1, commands[1]));
    assert(does_next(sandbox, order, x2, commands[2]));
    assert(does_next(sandbox, order, x3, commands[3]));
}

/// Every command but the last of each side can be answered, by any outcome that it can
/// have, and by no other.
pub proof fn law_commands_can_be_answered(
    sandbox: Sandbox,
    order: ByteOrder,
    replies: Seq<LaunchReply>,
    command: LaunchCommand,
    reply: LaunchReply,
)
    requires
        answered(replies, order),
        does_next(sandbox, order, replies, command),
    ensures
        answered(replies.push(reply), order) <==> match command {
            LaunchCommand::OpenSyncPipe
            | LaunchCommand::OpenStatusPipe
            | LaunchCommand::WriteFile { .. }
            | LaunchCommand::Release => reply is Done || reply is Failed,
            LaunchCommand::BlockSignals => reply is Done || reply is BlockFailed,
            LaunchCommand::Clone(_) => reply is Cloned,
            LaunchCommand::Supervise { .. } => reply is Supervised,
            LaunchCommand::ReadStatus => reply is Status,
            LaunchCommand::RunChild { .. } | LaunchCommand::Return(_) => false,
            LaunchCommand::UnblockSignals
            | LaunchCommand::Close(_)
            | LaunchCommand::CloseSync
            | LaunchCommand::Reap => reply is Done,
        },
{
    lemma_pushed(replies, order, reply);
}

/// The error that a launch returns says what failed: which pipe or call, in words, and
/// the cause as the system gave it.
pub proof fn law_errors_say_what_failed(
    error: Error,
    failure: Failure,
    reply: LaunchReply,
    child: Option<ChildHandle>,
    order: ByteOrder,
    sandbox: Sandbox,
)
    requires
        super::tells_of(error, failure, reply, child, order, sandbox),
    ensures
        failure is SyncPipe ==> (error matches Error::Setup { stage, context, source } && stage
            is Clone && context@ == "pipe() failed"@ && source == reply->Failed_0),
        failure is StatusPipe ==> (error matches Error::Setup { stage, context, source } && stage
            is Clone && context@ == "pipe2(O_CLOEXEC) failed"@ && source == reply->Failed_0),
        failure is Block ==> (error matches Error::Other(message) && message@
            == "failed to block signals: "@ + reply->BlockFailed_0@),
        failure is Clone ==> (error matches Error::Setup { stage, context, source } && stage
            is Clone && context@ == "clone3 failed"@ && source == Cause::Os(
            reply->Cloned_0.errno,
        )),
        failure is PidFd ==> (error matches Error::Setup { stage, context, source } && stage
            is Clone && context@ == "clone3 succeeded but CLONE_PIDFD did not return a valid fd"@
            && source == Cause::Os(Errno(EBADF))),
        failure matches Failure::IdMap(file) ==> (error matches Error::Setup {
            stage,
            context,
            source,
        } && stage is IdMap && source == reply->Failed_0 && context@ == "failed to write "@
            + file.spec_path(child->0.pid)),
        failure is Release ==> (error matches Error::Setup { stage, context, source } && stage
            is Clone && context@ == "failed to signal child via sync pipe"@ && source
            == reply->Failed_0),
        failure is Supervision ==> reply->Supervised_0 == Err::<i32, Error>(error),
{
}

/// What goes wrong is what the command was for: each command that can fail has a
/// failure of its own, that of a file names the file, and nothing goes wrong where
/// the answer is good.
pub proof fn law_each_failure_is_of_its_command(
    sandbox: Sandbox,
    order: ByteOrder,
    replies: Seq<LaunchReply>,
    command: LaunchCommand,
    reply: LaunchReply,
)
    requires
        answered(replies.push(reply), order),
        does_next(sandbox, order, replies, command),
    ensures
        reply is Done ==> super::failure_of(run(replies, order), reply, order) is None,
        reply is Failed ==> match command {
            LaunchCommand::OpenSyncPipe => super::failure_of(run(replies, order), reply, order)
                == Some(Failure::SyncPipe),
            LaunchCommand::OpenStatusPipe => super::failure_of(run(replies, order), reply, order)
                == Some(Failure::StatusPipe),
            LaunchCommand::Release => super::failure_of(run(replies, order), reply, order) == Some(
                Failure::Release,
            ),
            LaunchCommand::WriteFile { path, .. } => super::failure_of(
                run(replies, order),
                reply,
                order,
            ) matches Some(Failure::IdMap(file)) && path@ == file.spec_path(
                child_after(replies)->0.pid,
            ),
            _ => false,
        },
        reply is BlockFailed ==> super::failure_of(run(replies, order), reply, order) == Some(
            Failure::Block,
        ),
        reply matches LaunchReply::Cloned(answer) ==> super::failure_of(
            run(replies, order),
            reply,
            order,
        ) == if answer.ret == -1 {
            Some(Failure::Clone)
        } else if answer.ret != 0 && answer.pidfd < 0 {
            Some(Failure::PidFd)
        } else {
            None
        },
        reply matches LaunchReply::Supervised(result) ==> (super::failure_of(
            run(replies, order),
            reply,
            order,
        ) == if result is Err {
            Some(Failure::Supervision)
        } else {
            None
        }),
{
    lemma_pushed(replies, order, reply);
}

/// A launch starts where every run of it begins, without a child.
pub proof fn law_where_a_launch_starts(
    sandbox: Sandbox,
    order: ByteOrder,
    r: (super::Launch, LaunchCommand),
)
    requires
        call_ensures(super::Launch::start, (&sandbox, order), r),
    ensures
        r.0.state() == run(seq![], order),
        r.0.order() == order,
        r.0.spec_child() is None,
        does_next(sandbox, order, seq![], r.1),
        r.1 is OpenSyncPipe,
{
}

/// The child of a parent is the one that `clone3` gave, with its process id and its
/// descriptor, from there on; where `clone3` failed, in the child itself, and before,
/// there is none.
pub proof fn law_which_child_it_is(
    replies: Seq<LaunchReply>,
    answer: CloneResult,
    other: LaunchReply,
)
    requires
        !(other is Cloned),
    ensures
        child_after(seq![]) is None,
        child_after(replies.push(other)) == child_after(replies),
        answer.ret != -1 && answer.ret != 0 && answer.pidfd >= 0 ==> (child_after(
            replies.push(LaunchReply::Cloned(answer)),
        ) matches Some(child) && child.pid == answer.ret as i32 && child.pidfd == answer.pidfd),
        answer.ret == -1 || answer.ret == 0 || answer.pidfd < 0 ==> child_after(
            replies.push(LaunchReply::Cloned(answer)),
        ) is None,
{
    lemma_pushed(replies, ByteOrder::Little, other);
    lemma_pushed(replies, ByteOrder::Little, LaunchReply::Cloned(answer));
}

/// What has gone wrong is kept until it is returned.
pub proof fn law_what_is_returned_is_what_was_told(launch: super::Launch, command: LaunchCommand)
    ensures
        command matches LaunchCommand::Return(Err(error)) ==> super::told(launch, command) == Some(
            error,
        ),
        !(command is Return) ==> super::told(launch, command) == launch.error(),
{
}

} // verus!
