//! What the parent says of a child that failed.

use vstd::prelude::*;

use crate::bytes::ByteOrder;
use crate::config::Sandbox;
use crate::error::Error;
use crate::report::{ChildFailure, Stage, CHILD_FAILURE_LEN};
use crate::sys::{EACCES, ENOENT};
use crate::text::{append_decimal, append_signed};

verus! {

/// `std::io::Error::from_raw_os_error`, and its `to_string`: what the system
/// says of an error number. Nothing is claimed of the text, for it is the
/// system's own.
#[verifier::external_body]
fn os_error_text(errno: i32) -> String {
    std::io::Error::from_raw_os_error(errno).to_string()
}

/// Whether `text` is what the system says of error number `errno` when it is
/// asked: what [`os_error_text`] can return for it.
pub closed spec fn system_says(errno: i32, text: Seq<char>) -> bool {
    exists|said: String| #[trigger]
        call_ensures(os_error_text, (errno,), said) && said@ == text
}

/// How the message about a failed stage begins. The cause follows it.
pub open spec fn stage_message(stage: Stage) -> Seq<char> {
    match stage {
        Stage::ParentDeathSignal => "failed to set PR_SET_PDEATHSIG: "@,
        Stage::ParentCheck => "parent already exited"@,
        Stage::SyncWait => "parent failed during setup"@,
        Stage::Dumpable => "failed to set PR_SET_DUMPABLE: "@,
        Stage::Mount => "mount setup failed: "@,
        Stage::Hostname => "failed to set hostname: "@,
        Stage::Network => "loopback setup failed: "@,
        Stage::Rlimit => "rlimits setup failed: "@,
        Stage::Landlock => "landlock setup failed: "@,
        Stage::Env => "environment setup failed: "@,
        Stage::Capabilities => "capability setup failed: "@,
        Stage::Setsid => "setsid failed: "@,
        Stage::Fd => "fd setup failed: "@,
        Stage::Tsc => "failed to set TSC: "@,
        Stage::NoNewPrivs => "failed to set NO_NEW_PRIVS: "@,
        Stage::Mdwe => "failed to set PR_SET_MDWE: "@,
        Stage::Seccomp => "seccomp filter installation failed: "@,
        Stage::Cwd => "failed to set working directory: "@,
        Stage::Exec => "exec failed: "@,
        Stage::Completion => "completion evidence failed: "@,
    }
}

/// The message about a failure of `stage`, where `cause` is what the system says
/// of its error number. Two stages fail without one. A command that is missing
/// or forbidden is named instead, and a mount by its number.
pub open spec fn known_message(
    stage: Stage,
    failure: ChildFailure,
    command: Seq<char>,
    cause: Seq<char>,
) -> Seq<char> {
    if stage is Exec && failure.errno == ENOENT {
        "command not found: "@ + command
    } else if stage is Exec && failure.errno == EACCES {
        "permission denied: "@ + command
    } else if stage is Mount && failure.detail >= 0 {
        "mount setup failed (entry "@ + crate::text::decimal(failure.detail as nat) + "): "@
            + cause
    } else if stage is ParentCheck || stage is SyncWait {
        stage_message(stage)
    } else {
        stage_message(stage) + cause
    }
}

/// The message about a failure.
pub open spec fn failure_message(
    failure: ChildFailure,
    command: Seq<char>,
    cause: Seq<char>,
) -> Seq<char> {
    match Stage::numbered(failure.stage) {
        Some(stage) => known_message(stage, failure, command, cause),
        None => "child setup failed (stage "@ + crate::text::decimal(failure.stage as nat) + "): "@
            + cause,
    }
}

/// Whether `message` is the message about a failure, with what the system says of
/// its error number as the cause. There is no cause without an error number.
pub open spec fn is_failure_message(
    failure: ChildFailure,
    command: Seq<char>,
    message: Seq<char>,
) -> bool {
    if failure.errno == 0 {
        message == failure_message(failure, command, Seq::empty())
    } else {
        exists|cause: Seq<char>| #[trigger]
            system_says(failure.errno, cause) && message == failure_message(
                failure,
                command,
                cause,
            )
    }
}

/// How the command is named: by its path, if it has one.
pub open spec fn command_name(args: Seq<String>) -> Seq<char> {
    if args.len() > 0 {
        args[0]@
    } else {
        "<unknown>"@
    }
}

fn stage_text(stage: Stage) -> (r: &'static str)
    ensures
        r@ == stage_message(stage),
{
    match stage {
        Stage::ParentDeathSignal => "failed to set PR_SET_PDEATHSIG: ",
        Stage::ParentCheck => "parent already exited",
        Stage::SyncWait => "parent failed during setup",
        Stage::Dumpable => "failed to set PR_SET_DUMPABLE: ",
        Stage::Mount => "mount setup failed: ",
        Stage::Hostname => "failed to set hostname: ",
        Stage::Network => "loopback setup failed: ",
        Stage::Rlimit => "rlimits setup failed: ",
        Stage::Landlock => "landlock setup failed: ",
        Stage::Env => "environment setup failed: ",
        Stage::Capabilities => "capability setup failed: ",
        Stage::Setsid => "setsid failed: ",
        Stage::Fd => "fd setup failed: ",
        Stage::Tsc => "failed to set TSC: ",
        Stage::NoNewPrivs => "failed to set NO_NEW_PRIVS: ",
        Stage::Mdwe => "failed to set PR_SET_MDWE: ",
        Stage::Seccomp => "seccomp filter installation failed: ",
        Stage::Cwd => "failed to set working directory: ",
        Stage::Exec => "exec failed: ",
        Stage::Completion => "completion evidence failed: ",
    }
}

/// The message about a failure, where `cause` is what the system says of its
/// error number.
pub fn describe_child_failure(failure: &ChildFailure, args: &Vec<String>, cause: &str) -> (r:
    String)
    ensures
        r@ == failure_message(*failure, command_name(args@), cause@),
{
    let command: &str = if args.len() > 0 {
        args[0].as_str()
    } else {
        "<unknown>"
    };
    let stage = match Stage::from_u16(failure.stage) {
        Some(stage) => stage,
        None => {
            let mut message = String::from_str("child setup failed (stage ");
            append_decimal(&mut message, failure.stage as u64);
            message.append("): ");
            message.append(cause);
            return message;
        },
    };
    if stage == Stage::Exec && failure.errno == ENOENT {
        let mut message = String::from_str("command not found: ");
        message.append(command);
        message
    } else if stage == Stage::Exec && failure.errno == EACCES {
        let mut message = String::from_str("permission denied: ");
        message.append(command);
        message
    } else if stage == Stage::Mount && failure.detail >= 0 {
        let mut message = String::from_str("mount setup failed (entry ");
        append_decimal(&mut message, failure.detail as u64);
        message.append("): ");
        message.append(cause);
        message
    } else if stage == Stage::ParentCheck || stage == Stage::SyncWait {
        String::from_str(stage_text(stage))
    } else {
        let mut message = String::from_str(stage_text(stage));
        message.append(cause);
        message
    }
}

/// The message about a failure. What the system says of the error number, if
/// there is one, is part of it.
pub fn format_child_failure(failure: &ChildFailure, sandbox: &Sandbox) -> (r: String)
    ensures
        is_failure_message(*failure, command_name(sandbox.command.args@), r@),
{
    let cause = if failure.errno != 0 {
        let said = os_error_text(failure.errno);
        assert(system_says(failure.errno, said@));
        said
    } else {
        String::new()
    };
    describe_child_failure(failure, &sandbox.command.args, cause.as_str())
}

/// The stage of a failure record. One whose number is unknown counts as that of
/// executing the command.
pub open spec fn failed_stage(number: u16) -> Stage {
    match Stage::numbered(number) {
        Some(stage) => stage,
        None => Stage::Exec,
    }
}

/// Whether `error` tells of `failure`: what the record holds, and the message that
/// [`format_child_failure`] gives for it.
pub open spec fn tells_of(error: Error, failure: ChildFailure, sandbox: Sandbox) -> bool {
    &&& error matches Error::ChildSetup { stage, errno, detail, exit_code, message }
    &&& stage == failed_stage(failure.stage)
    &&& errno == failure.errno
    &&& detail == failure.detail
    &&& exit_code == failure.exit_code
    &&& call_ensures(format_child_failure, (&failure, &sandbox), message)
    &&& is_failure_message(failure, command_name(sandbox.command.args@), message@)
}

/// Whether what was read from the status pipe is a failure record of the version
/// that is understood: whole, and with that version in front.
pub open spec fn says_failed(read: isize, record: Seq<u8>, order: ByteOrder) -> bool {
    read == CHILD_FAILURE_LEN && record.take(2) == crate::bytes::bytes16(
        ChildFailure::VERSION,
        order,
    )
}

/// Takes what was read from the status pipe: how many bytes, and the bytes.
/// Unless they are a whole failure record, in a version that is understood, the
/// child did not fail, for the pipe is closed when the command is executed.
pub fn decode_child_failure(
    read: isize,
    buf: &[u8; CHILD_FAILURE_LEN],
    order: ByteOrder,
    sandbox: &Sandbox,
) -> (r: Option<Error>)
    ensures
        r is Some <==> says_failed(read, buf@, order),
        r matches Some(error) ==> forall|failure: ChildFailure| #[trigger]
            failure.layout(order) == buf@ ==> tells_of(error, failure, *sandbox),
{
    let failure = ChildFailure::from_bytes(buf, order);
    proof {
        assert forall|other: ChildFailure| #[trigger] other.layout(order) == buf@ implies other
            == failure by {
            crate::report::law_failure_record_round_trip(other, failure, order);
        }
        assert(buf@.take(2) =~= crate::bytes::bytes16(failure.version, order));
        if buf@.take(2) == crate::bytes::bytes16(ChildFailure::VERSION, order) {
            crate::bytes::law_bytes16_injective(failure.version, ChildFailure::VERSION, order);
        }
    }
    if read != 16 {
        return None;
    }
    if failure.version != ChildFailure::VERSION {
        return None;
    }
    let message = format_child_failure(&failure, sandbox);
    let stage = match Stage::from_u16(failure.stage) {
        Some(stage) => stage,
        None => Stage::Exec,
    };
    Some(
        Error::ChildSetup {
            stage,
            errno: failure.errno,
            detail: failure.detail,
            exit_code: failure.exit_code,
            message,
        },
    )
}

/// What is said of a signal that could not be sent.
pub open spec fn send_message(sig: i32, cause: Seq<char>) -> Seq<char> {
    "pnut: pidfd_send_signal("@ + crate::text::signed_decimal(sig as int) + ") failed: "@ + cause
}

/// What is said of an attempt to send `sig`, where `cause` is what the system
/// says of `errno`. That the child is gone already is no failure.
pub fn pidfd_send_signal(sig: i32, ret: i64, errno: i32, cause: &str) -> (r: Option<String>)
    ensures
        match r {
            Some(message) => ret == -1 && errno != crate::sys::ESRCH && message@ == send_message(
                sig,
                cause@,
            ),
            None => ret != -1 || errno == crate::sys::ESRCH,
        },
{
    if ret == -1 && errno != crate::sys::ESRCH {
        let mut message = String::from_str("pnut: pidfd_send_signal(");
        append_signed(&mut message, sig);
        message.append(") failed: ");
        message.append(cause);
        Some(message)
    } else {
        None
    }
}

/// What a child writes to the status pipe when it gives up, its parent takes for
/// a failure, and learns of the stage, the error, the detail and the status that
/// the child meant. The message is the one that [`format_child_failure`] gives for
/// the record.
pub proof fn law_parent_learns_what_the_child_meant(
    fault: crate::runtime::Fault,
    order: ByteOrder,
    sandbox: Sandbox,
    error: Error,
)
    ensures
        says_failed(
            CHILD_FAILURE_LEN as isize,
            crate::runtime::failure_of(fault).layout(order),
            order,
        ),
        tells_of(error, crate::runtime::failure_of(fault), sandbox) ==> (error matches
            Error::ChildSetup { stage, errno, detail, exit_code, message } && stage == fault.stage
            && errno == fault.errno && detail == fault.detail && exit_code == fault.exit_code
            && call_ensures(
            format_child_failure,
            (&crate::runtime::failure_of(fault), &sandbox),
            message,
        ) && is_failure_message(
            crate::runtime::failure_of(fault),
            command_name(sandbox.command.args@),
            message@,
        )),
{
    let failure = crate::runtime::failure_of(fault);
    assert(failure.layout(order).take(2) =~= crate::bytes::bytes16(failure.version, order));
    crate::report::law_stage_numbers(fault.stage, failure.stage);
}

/// The message about a failure says which stage failed, and ends with the cause where
/// there is one. A mount is told by its number, a command that is missing or
/// forbidden is named, and an unknown stage is told by its number.
pub proof fn law_what_is_said_of_a_failure(
    failure: ChildFailure,
    args: Vec<String>,
    cause: &str,
    r: String,
)
    requires
        call_ensures(describe_child_failure, (&failure, &args, cause), r),
    ensures
        failure.stage == 1 ==> r@ == "failed to set PR_SET_PDEATHSIG: "@ + cause@,
        failure.stage == 4 ==> r@ == "failed to set PR_SET_DUMPABLE: "@ + cause@,
        failure.stage == 6 ==> r@ == "failed to set hostname: "@ + cause@,
        failure.stage == 7 ==> r@ == "loopback setup failed: "@ + cause@,
        failure.stage == 8 ==> r@ == "rlimits setup failed: "@ + cause@,
        failure.stage == 9 ==> r@ == "landlock setup failed: "@ + cause@,
        failure.stage == 10 ==> r@ == "environment setup failed: "@ + cause@,
        failure.stage == 11 ==> r@ == "capability setup failed: "@ + cause@,
        failure.stage == 12 ==> r@ == "setsid failed: "@ + cause@,
        failure.stage == 13 ==> r@ == "fd setup failed: "@ + cause@,
        failure.stage == 14 ==> r@ == "failed to set TSC: "@ + cause@,
        failure.stage == 15 ==> r@ == "failed to set NO_NEW_PRIVS: "@ + cause@,
        failure.stage == 16 ==> r@ == "failed to set PR_SET_MDWE: "@ + cause@,
        failure.stage == 17 ==> r@ == "seccomp filter installation failed: "@ + cause@,
        failure.stage == 18 ==> r@ == "failed to set working directory: "@ + cause@,
        failure.stage == 20 ==> r@ == "completion evidence failed: "@ + cause@,
        failure.stage == 2 ==> r@ == "parent already exited"@,
        failure.stage == 3 ==> r@ == "parent failed during setup"@,
        failure.stage == 5 && failure.detail >= 0 ==> r@ == "mount setup failed (entry "@
            + crate::text::decimal(failure.detail as nat) + "): "@ + cause@,
        failure.stage == 5 && failure.detail < 0 ==> r@ == "mount setup failed: "@ + cause@,
        failure.stage == 19 && failure.errno == ENOENT && args@.len() > 0 ==> r@
            == "command not found: "@ + args@[0]@,
        failure.stage == 19 && failure.errno == EACCES && args@.len() > 0 ==> r@
            == "permission denied: "@ + args@[0]@,
        failure.stage == 19 && failure.errno == ENOENT && args@.len() == 0 ==> r@
            == "command not found: "@ + "<unknown>"@,
        failure.stage == 19 && failure.errno == EACCES && args@.len() == 0 ==> r@
            == "permission denied: "@ + "<unknown>"@,
        failure.stage == 19 && failure.errno != ENOENT && failure.errno != EACCES ==> r@
            == "exec failed: "@ + cause@,
        failure.stage == 0 || failure.stage > 20 ==> r@ == "child setup failed (stage "@
            + crate::text::decimal(failure.stage as nat) + "): "@ + cause@,
{
}

/// The parent takes for a failure exactly a whole record in version one, and tells of
/// it what the record holds. A stage that it does not know counts as that of
/// executing the command.
pub proof fn law_which_records_are_failures(
    read: isize,
    failure: ChildFailure,
    order: ByteOrder,
    record: [u8; CHILD_FAILURE_LEN],
    sandbox: Sandbox,
    stage: Option<Stage>,
    r: Option<Error>,
)
    requires
        call_ensures(ChildFailure::to_bytes, (&failure, order), record),
        call_ensures(Stage::from_u16, (failure.stage,), stage),
        call_ensures(decode_child_failure, (read, &record, order, &sandbox), r),
    ensures
        r is Some <==> read == 16 && failure.version == 1,
        r matches Some(error) ==> (error matches Error::ChildSetup {
            stage: told,
            errno,
            detail,
            exit_code,
            message,
        } && told == (if stage is Some {
            stage->0
        } else {
            Stage::Exec
        }) && errno == failure.errno && detail == failure.detail && exit_code
            == failure.exit_code && is_failure_message(
            failure,
            command_name(sandbox.command.args@),
            message@,
        )),
{
    assert(record@.take(2) =~= crate::bytes::bytes16(failure.version, order));
    if record@.take(2) == crate::bytes::bytes16(1, order) {
        crate::bytes::law_bytes16_injective(failure.version, 1, order);
    }
}

/// A signal that could not be sent is told, with its number and the cause, unless the
/// child was gone already; nothing is said of one that was sent.
pub proof fn law_unsent_signal_is_told(
    sig: i32,
    ret: i64,
    errno: i32,
    cause: &str,
    r: Option<String>,
)
    requires
        call_ensures(pidfd_send_signal, (sig, ret, errno, cause), r),
    ensures
        r is Some <==> ret == -1 && errno != crate::sys::ESRCH,
        r matches Some(message) ==> message@ == "pnut: pidfd_send_signal("@
            + crate::text::signed_decimal(sig as int) + ") failed: "@ + cause@,
{
}

/// The message about a failure that no system call raised has no cause, and any other
/// has for its cause what the system says of its error number.
pub proof fn law_where_the_cause_comes_from(failure: ChildFailure, sandbox: Sandbox, r: String)
    requires
        call_ensures(format_child_failure, (&failure, &sandbox), r),
        sandbox.command.args@.len() > 0,
    ensures
        failure.errno == 0 ==> r@ == failure_message(
            failure,
            sandbox.command.args@[0]@,
            Seq::empty(),
        ),
        failure.errno != 0 ==> exists|cause: Seq<char>| #[trigger]
            system_says(failure.errno, cause) && r@ == failure_message(
                failure,
                sandbox.command.args@[0]@,
                cause,
            ),
{
}

} // verus!
