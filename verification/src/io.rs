//! Whole reads and writes on control pipes and error pipes.

use vstd::prelude::*;

use crate::error::Errno;
use crate::sys::{EINTR, EPIPE};

verus! {

/// How far a transfer has come.
#[derive(Clone, Copy, Debug, PartialEq, Eq, Structural)]
pub enum TransferState {
    /// The first `done` bytes have been moved, and more are to come.
    Moving { done: usize },
    /// Every byte has been moved.
    Done,
    /// It was given up.
    Failed(Errno),
}

/// What one `read` or `write` call returned: its result, and the error number if
/// that is negative.
#[derive(Clone, Copy, Debug, PartialEq, Eq, Structural)]
pub struct CallResult {
    pub ret: isize,
    pub errno: Errno,
}

/// The state of a transfer of `len` bytes of which `done` have been moved.
pub open spec fn having_moved(len: usize, done: int) -> TransferState {
    if done < len {
        TransferState::Moving { done: done as usize }
    } else {
        TransferState::Done
    }
}

/// The state after a call on the bytes that are left. The end of the stream is
/// a broken pipe, and an interrupted call is made again.
pub open spec fn stepping(len: usize, state: TransferState, call: CallResult) -> TransferState {
    match state {
        TransferState::Moving { done } => if call.ret > 0 {
            having_moved(len, done + call.ret)
        } else if call.ret == 0 {
            TransferState::Failed(Errno(EPIPE))
        } else if call.errno.0 == EINTR {
            state
        } else {
            TransferState::Failed(call.errno)
        },
        _ => state,
    }
}

/// Whether `call` can be the result of a call on the bytes that are left: it
/// moves no more than there are.
pub open spec fn answers(len: usize, state: TransferState, call: CallResult) -> bool {
    state matches TransferState::Moving { done } ==> call.ret <= len - done
}

/// A transfer of a whole buffer, by `read` calls or by `write` calls.
#[derive(Clone, Copy, Debug)]
pub struct Transfer {
    len: usize,
    state: TransferState,
}

impl Transfer {
    /// The length of the buffer.
    pub closed spec fn spec_len(self) -> usize {
        self.len
    }

    /// How far the transfer has come.
    pub closed spec fn spec_state(self) -> TransferState {
        self.state
    }

    /// Whether what has been moved is less than the whole, while there is more
    /// to come.
    pub open spec fn wf(self) -> bool {
        self.spec_state() matches TransferState::Moving { done } ==> done < self.spec_len()
    }

    /// Starts to move `len` bytes.
    pub fn start(len: usize) -> (r: Self)
        ensures
            r.wf(),
            r.spec_len() == len,
            r.spec_state() == having_moved(len, 0),
    {
        Transfer {
            len,
            state: if len > 0 {
                TransferState::Moving { done: 0 }
            } else {
                TransferState::Done
            },
        }
    }

    /// How far the transfer has come.
    pub fn state(&self) -> (r: TransferState)
        ensures
            r == self.spec_state(),
    {
        self.state
    }

    /// Takes the result of a call on the bytes that are left.
    pub fn resume(&mut self, call: CallResult)
        requires
            old(self).wf(),
            answers(old(self).spec_len(), old(self).spec_state(), call),
        ensures
            final(self).wf(),
            final(self).spec_len() == old(self).spec_len(),
            final(self).spec_state() == stepping(
                old(self).spec_len(),
                old(self).spec_state(),
                call,
            ),
    {
        match self.state {
            TransferState::Moving { done } => {
                self.state = if call.ret > 0 {
                    let moved: usize = done + call.ret as usize;
                    if moved < self.len {
                        TransferState::Moving { done: moved }
                    } else {
                        TransferState::Done
                    }
                } else if call.ret == 0 {
                    TransferState::Failed(Errno(EPIPE))
                } else if call.errno.0 == EINTR {
                    self.state
                } else {
                    TransferState::Failed(call.errno)
                };
            },
            _ => {},
        }
    }
}

/// The state of a transfer of `len` bytes after the given calls.
pub open spec fn run(len: usize, calls: Seq<CallResult>) -> TransferState
    decreases calls.len(),
{
    if calls.len() == 0 {
        having_moved(len, 0)
    } else {
        stepping(len, run(len, calls.drop_last()), calls.last())
    }
}

/// Whether each call can have been made on the bytes that were left.
pub open spec fn answered(len: usize, calls: Seq<CallResult>) -> bool
    decreases calls.len(),
{
    calls.len() == 0 || answered(len, calls.drop_last()) && answers(
        len,
        run(len, calls.drop_last()),
        calls.last(),
    ) && run(len, calls.drop_last()) is Moving
}

/// How many bytes the calls have moved.
pub open spec fn moved(calls: Seq<CallResult>) -> int
    decreases calls.len(),
{
    if calls.len() == 0 {
        0
    } else {
        moved(calls.drop_last()) + if calls.last().ret > 0 {
            calls.last().ret as int
        } else {
            0
        }
    }
}

/// A transfer goes on exactly where the last call left off, and it is done only
/// when the calls have moved exactly the whole buffer.
pub proof fn law_every_byte_is_moved_once(len: usize, calls: Seq<CallResult>)
    requires
        answered(len, calls),
    ensures
        match run(len, calls) {
            TransferState::Moving { done } => done == moved(calls) && moved(calls) < len,
            TransferState::Done => moved(calls) == len,
            TransferState::Failed(_) => moved(calls) < len,
        },
    decreases calls.len(),
{
    if calls.len() > 0 {
        law_every_byte_is_moved_once(len, calls.drop_last());
    }
}

/// An interrupted call changes nothing, so that signals never cut a transfer
/// short.
pub proof fn law_interruption_is_harmless(len: usize, state: TransferState, call: CallResult)
    requires
        call.ret < 0,
        call.errno.0 == EINTR,
    ensures
        stepping(len, state, call) == state,
{
}

/// A transfer of nothing is done at once, and any other begins with the first byte.
pub proof fn law_where_a_transfer_begins(len: usize, r: Transfer)
    requires
        call_ensures(Transfer::start, (len,), r),
    ensures
        len == 0 <==> r.spec_state() is Done,
        len > 0 ==> r.spec_state() == (TransferState::Moving { done: 0 }),
{
}

/// A transfer is given up only at the end of the stream, which is a broken pipe, or
/// with the error of a call that was not merely interrupted; and it goes on after
/// anything else.
pub proof fn law_why_a_transfer_fails(len: usize, calls: Seq<CallResult>, call: CallResult)
    requires
        answered(len, calls.push(call)),
    ensures
        run(len, calls.push(call)) is Failed <==> call.ret == 0 || call.ret < 0 && call.errno.0
            != EINTR,
        call.ret == 0 ==> run(len, calls.push(call)) == TransferState::Failed(Errno(EPIPE)),
        call.ret < 0 && call.errno.0 != EINTR ==> run(len, calls.push(call))
            == TransferState::Failed(call.errno),
        run(len, calls.push(call)) is Done <==> moved(calls.push(call)) == len,
{
    assert(calls.push(call).drop_last() =~= calls);
    law_every_byte_is_moved_once(len, calls);
    law_every_byte_is_moved_once(len, calls.push(call));
}

} // verus!
