//! Starting a process in namespaces of its own.

use vstd::prelude::*;

use crate::config::Namespaces;
use crate::error::{Cause, Errno, Error, SetupStage};
use crate::sys::{
    CLONE_NEWCGROUP, CLONE_NEWIPC, CLONE_NEWNET, CLONE_NEWNS, CLONE_NEWPID, CLONE_NEWTIME,
    CLONE_NEWUSER, CLONE_NEWUTS, CLONE_PIDFD, EBADF, SIGCHLD,
};

verus! {

/// The flag of a namespace, if it is to be new.
pub open spec fn flag(enabled: bool, bit: u64) -> int {
    if enabled {
        bit as int
    } else {
        0
    }
}

/// The flags of the namespaces that are to be new. No two share a bit.
pub open spec fn namespace_flags(ns: Namespaces) -> int {
    flag(ns.user, CLONE_NEWUSER) + flag(ns.pid, CLONE_NEWPID) + flag(ns.mount, CLONE_NEWNS) + flag(
        ns.uts,
        CLONE_NEWUTS,
    ) + flag(ns.ipc, CLONE_NEWIPC) + flag(ns.net, CLONE_NEWNET) + flag(ns.cgroup, CLONE_NEWCGROUP)
        + flag(ns.time, CLONE_NEWTIME)
}

fn flag_if(enabled: bool, bit: u64) -> (r: u64)
    ensures
        r == flag(enabled, bit),
        r == 0 || r == bit,
{
    if enabled {
        bit
    } else {
        0
    }
}

/// The flags of the namespaces that are to be new.
pub fn clone_flags(ns: &Namespaces) -> (r: u64)
    ensures
        r == namespace_flags(*ns),
{
    let user: u64 = flag_if(ns.user, CLONE_NEWUSER);
    let pid: u64 = flag_if(ns.pid, CLONE_NEWPID);
    let mount: u64 = flag_if(ns.mount, CLONE_NEWNS);
    let uts: u64 = flag_if(ns.uts, CLONE_NEWUTS);
    let ipc: u64 = flag_if(ns.ipc, CLONE_NEWIPC);
    let net: u64 = flag_if(ns.net, CLONE_NEWNET);
    let cgroup: u64 = flag_if(ns.cgroup, CLONE_NEWCGROUP);
    let time: u64 = flag_if(ns.time, CLONE_NEWTIME);
    let r: u64 = user | pid | mount | uts | ipc | net | cgroup | time;
    assert(user | pid | mount | uts | ipc | net | cgroup | time == user + pid + mount + uts + ipc
        + net + cgroup + time) by (bit_vector)
        requires
            user == 0 || user == 0x10000000,
            pid == 0 || pid == 0x20000000,
            mount == 0 || mount == 0x20000,
            uts == 0 || uts == 0x4000000,
            ipc == 0 || ipc == 0x8000000,
            net == 0 || net == 0x40000000,
            cgroup == 0 || cgroup == 0x2000000,
            time == 0 || time == 0x80,
    ;
    r
}

/// The arguments of `clone3` that are not zero. It is also told where to put the
/// descriptor of the child.
#[derive(Clone, Copy, Debug, PartialEq, Eq, Structural)]
pub struct CloneArgs {
    pub flags: u64,
    pub exit_signal: u64,
}

/// The arguments that start a child in the given namespaces. A descriptor of the
/// child is asked for, and a signal when it ends.
pub fn clone_args(ns: &Namespaces) -> (r: CloneArgs)
    ensures
        r.flags == namespace_flags(*ns) + CLONE_PIDFD,
        r.exit_signal == SIGCHLD,
{
    let flags: u64 = clone_flags(ns);
    proof {
        lemma_pidfd_flag(*ns, flags);
    }
    CloneArgs { flags: flags | CLONE_PIDFD, exit_signal: SIGCHLD as u64 }
}

proof fn lemma_pidfd_flag(ns: Namespaces, flags: u64)
    requires
        flags == namespace_flags(ns),
    ensures
        flags | CLONE_PIDFD == flags + CLONE_PIDFD,
{
    let a = flag(ns.user, CLONE_NEWUSER) as u64;
    let b = flag(ns.pid, CLONE_NEWPID) as u64;
    let c = flag(ns.mount, CLONE_NEWNS) as u64;
    let d = flag(ns.uts, CLONE_NEWUTS) as u64;
    let e = flag(ns.ipc, CLONE_NEWIPC) as u64;
    let f = flag(ns.net, CLONE_NEWNET) as u64;
    let g = flag(ns.cgroup, CLONE_NEWCGROUP) as u64;
    let h = flag(ns.time, CLONE_NEWTIME) as u64;
    assert(flags | 0x1000 == flags + 0x1000) by (bit_vector)
        requires
            flags == a + b + c + d + e + f + g + h,
            a == 0 || a == 0x10000000,
            b == 0 || b == 0x20000000,
            c == 0 || c == 0x20000,
            d == 0 || d == 0x4000000,
            e == 0 || e == 0x8000000,
            f == 0 || f == 0x40000000,
            g == 0 || g == 0x2000000,
            h == 0 || h == 0x80,
    ;
}

/// A child, as its parent knows it.
#[derive(Clone, Copy, Debug, PartialEq, Eq, Structural)]
pub struct ChildHandle {
    pub pid: i32,
    pub pidfd: i32,
}

/// What `clone3` answered: its result, the descriptor of the child, and the
/// error number if the result is negative.
#[derive(Clone, Copy, Debug, PartialEq, Eq, Structural)]
pub struct CloneResult {
    pub ret: i64,
    pub pidfd: i32,
    pub errno: Errno,
}

/// Whether `error` says that starting the child failed, as `context` puts it.
pub open spec fn is_clone_error(error: Error, context: Seq<char>, errno: Errno) -> bool {
    &&& error matches Error::Setup { stage, context: said, source }
    &&& stage == SetupStage::Clone
    &&& said@ == context
    &&& source == Cause::Os(errno)
}

/// What the parent holds of its child after `clone3` has answered, if it has
/// started one and was given a descriptor of it.
pub open spec fn handle_of(answer: CloneResult) -> Option<ChildHandle> {
    if answer.ret == -1 || answer.ret == 0 || answer.pidfd < 0 {
        None
    } else {
        Some(ChildHandle { pid: answer.ret as i32, pidfd: answer.pidfd })
    }
}

/// Takes what `clone3` answered. In the child there is no handle. A parent that
/// was given no descriptor has failed, although there is a child.
pub fn do_clone3(answer: CloneResult) -> (r: Result<Option<ChildHandle>, Error>)
    ensures
        if answer.ret == -1 {
            r matches Err(e) && is_clone_error(e, "clone3 failed"@, answer.errno)
        } else if answer.ret == 0 {
            r matches Ok(None)
        } else if answer.pidfd < 0 {
            r matches Err(e) && is_clone_error(
                e,
                "clone3 succeeded but CLONE_PIDFD did not return a valid fd"@,
                Errno(EBADF),
            )
        } else {
            handle_of(answer) is Some && r == Ok::<Option<ChildHandle>, Error>(handle_of(answer))
        },
{
    if answer.ret == -1 {
        return Err(
            Error::Setup {
                stage: SetupStage::Clone,
                context: String::from_str("clone3 failed"),
                source: Cause::Os(answer.errno),
            },
        );
    }
    if answer.ret == 0 {
        return Ok(None);
    }
    if answer.pidfd < 0 {
        return Err(
            Error::Setup {
                stage: SetupStage::Clone,
                context: String::from_str(
                    "clone3 succeeded but CLONE_PIDFD did not return a valid fd",
                ),
                source: Cause::Os(Errno(EBADF)),
            },
        );
    }
    Ok(
        Some(
            ChildHandle {
                pid: #[verifier::truncate]
                (answer.ret as i32),
                pidfd: answer.pidfd,
            },
        ),
    )
}

/// Each namespace has a flag of its own, which is set exactly if the namespace is
/// to be new, and no other flag is set.
pub proof fn law_each_namespace_has_its_flag(ns: Namespaces, flags: u64)
    requires
        call_ensures(clone_flags, (&ns,), flags),
    ensures
        flags & CLONE_NEWUSER != 0 <==> ns.user,
        flags & CLONE_NEWPID != 0 <==> ns.pid,
        flags & CLONE_NEWNS != 0 <==> ns.mount,
        flags & CLONE_NEWUTS != 0 <==> ns.uts,
        flags & CLONE_NEWIPC != 0 <==> ns.ipc,
        flags & CLONE_NEWNET != 0 <==> ns.net,
        flags & CLONE_NEWCGROUP != 0 <==> ns.cgroup,
        flags & CLONE_NEWTIME != 0 <==> ns.time,
        flags & !(CLONE_NEWUSER | CLONE_NEWPID | CLONE_NEWNS | CLONE_NEWUTS | CLONE_NEWIPC
            | CLONE_NEWNET | CLONE_NEWCGROUP | CLONE_NEWTIME) == 0,
{
    lemma_flag_bits(ns, flags);
}

proof fn lemma_flag_bits(ns: Namespaces, flags: u64)
    requires
        flags == namespace_flags(ns),
    ensures
        flags & CLONE_NEWUSER != 0 <==> ns.user,
        flags & CLONE_NEWPID != 0 <==> ns.pid,
        flags & CLONE_NEWNS != 0 <==> ns.mount,
        flags & CLONE_NEWUTS != 0 <==> ns.uts,
        flags & CLONE_NEWIPC != 0 <==> ns.ipc,
        flags & CLONE_NEWNET != 0 <==> ns.net,
        flags & CLONE_NEWCGROUP != 0 <==> ns.cgroup,
        flags & CLONE_NEWTIME != 0 <==> ns.time,
        flags & !(CLONE_NEWUSER | CLONE_NEWPID | CLONE_NEWNS | CLONE_NEWUTS | CLONE_NEWIPC
            | CLONE_NEWNET | CLONE_NEWCGROUP | CLONE_NEWTIME) == 0,
{
    let a = flag(ns.user, CLONE_NEWUSER) as u64;
    let b = flag(ns.pid, CLONE_NEWPID) as u64;
    let c = flag(ns.mount, CLONE_NEWNS) as u64;
    let d = flag(ns.uts, CLONE_NEWUTS) as u64;
    let e = flag(ns.ipc, CLONE_NEWIPC) as u64;
    let f = flag(ns.net, CLONE_NEWNET) as u64;
    let g = flag(ns.cgroup, CLONE_NEWCGROUP) as u64;
    let h = flag(ns.time, CLONE_NEWTIME) as u64;
    assert(flags & CLONE_NEWUSER == a && flags & CLONE_NEWPID == b && flags & CLONE_NEWNS == c
        && flags & CLONE_NEWUTS == d && flags & CLONE_NEWIPC == e && flags & CLONE_NEWNET == f
        && flags & CLONE_NEWCGROUP == g && flags & CLONE_NEWTIME == h && flags & !(CLONE_NEWUSER
        | CLONE_NEWPID | CLONE_NEWNS | CLONE_NEWUTS | CLONE_NEWIPC | CLONE_NEWNET | CLONE_NEWCGROUP
        | CLONE_NEWTIME) == 0) by (bit_vector)
        requires
            flags == a + b + c + d + e + f + g + h,
            a == 0 || a == CLONE_NEWUSER,
            b == 0 || b == CLONE_NEWPID,
            c == 0 || c == CLONE_NEWNS,
            d == 0 || d == CLONE_NEWUTS,
            e == 0 || e == CLONE_NEWIPC,
            f == 0 || f == CLONE_NEWNET,
            g == 0 || g == CLONE_NEWCGROUP,
            h == 0 || h == CLONE_NEWTIME,
    ;
}

/// The child is started in the namespaces of [`clone_flags`]; beyond them, only
/// its descriptor is asked for, and a signal when it ends.
pub proof fn law_child_is_asked_for_with_a_descriptor(ns: Namespaces, flags: u64, args: CloneArgs)
    requires
        call_ensures(clone_flags, (&ns,), flags),
        call_ensures(clone_args, (&ns,), args),
    ensures
        args.flags == flags | CLONE_PIDFD,
        flags & CLONE_PIDFD == 0,
        args.exit_signal == SIGCHLD,
{
    lemma_flag_bits(ns, flags);
    lemma_pidfd_flag(ns, flags);
    assert(flags & CLONE_PIDFD == 0) by (bit_vector)
        requires
            flags & !(CLONE_NEWUSER | CLONE_NEWPID | CLONE_NEWNS | CLONE_NEWUTS | CLONE_NEWIPC
                | CLONE_NEWNET | CLONE_NEWCGROUP | CLONE_NEWTIME) == 0,
    ;
}

/// Of what `clone3` answered, the parent takes the process id and the descriptor
/// as they are, the child takes nothing, and a failure is told with its error
/// number. A parent without a descriptor has failed.
pub proof fn law_what_clone3_answered(answer: CloneResult, r: Result<Option<ChildHandle>, Error>)
    requires
        call_ensures(do_clone3, (answer,), r),
    ensures
        r is Err <==> answer.ret == -1 || answer.ret != 0 && answer.pidfd < 0,
        r matches Err(Error::Setup { stage, context, source }) ==> stage is Clone && source
            == Cause::Os(
            if answer.ret == -1 {
                answer.errno
            } else {
                Errno(EBADF)
            },
        ),
        r matches Err(error) ==> error is Setup,
        answer.ret == 0 ==> r == Ok::<Option<ChildHandle>, Error>(None),
        answer.ret != -1 && answer.ret != 0 && answer.pidfd >= 0 ==> (r matches Ok(Some(child))
            && child.pid == answer.ret as i32 && child.pidfd == answer.pidfd),
{
}

} // verus!
