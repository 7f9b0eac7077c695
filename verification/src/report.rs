//! Structured child failure reporting.

use vstd::prelude::*;

use crate::bytes::{join16, join32, split16, split32, ByteOrder};
use crate::error::Errno;
use crate::sys::{EACCES, ENOENT};
use crate::zstr::ZStr;

verus! {

/// Child-runtime stage identifier.
#[derive(Clone, Copy, Debug, PartialEq, Eq, Structural)]
pub enum Stage {
    ParentDeathSignal,
    ParentCheck,
    SyncWait,
    Dumpable,
    Mount,
    Hostname,
    Network,
    Rlimit,
    Landlock,
    Env,
    Capabilities,
    Setsid,
    Fd,
    Tsc,
    NoNewPrivs,
    Mdwe,
    Seccomp,
    Cwd,
    Exec,
    Completion,
}

impl Stage {
    /// The number of the stage in a failure record.
    pub open spec fn number(self) -> u16 {
        match self {
            Stage::ParentDeathSignal => 1,
            Stage::ParentCheck => 2,
            Stage::SyncWait => 3,
            Stage::Dumpable => 4,
            Stage::Mount => 5,
            Stage::Hostname => 6,
            Stage::Network => 7,
            Stage::Rlimit => 8,
            Stage::Landlock => 9,
            Stage::Env => 10,
            Stage::Capabilities => 11,
            Stage::Setsid => 12,
            Stage::Fd => 13,
            Stage::Tsc => 14,
            Stage::NoNewPrivs => 15,
            Stage::Mdwe => 16,
            Stage::Seccomp => 17,
            Stage::Cwd => 18,
            Stage::Exec => 19,
            Stage::Completion => 20,
        }
    }

    /// The number of the stage in a failure record.
    pub fn to_u16(self) -> (r: u16)
        ensures
            r == self.number(),
    {
        match self {
            Stage::ParentDeathSignal => 1,
            Stage::ParentCheck => 2,
            Stage::SyncWait => 3,
            Stage::Dumpable => 4,
            Stage::Mount => 5,
            Stage::Hostname => 6,
            Stage::Network => 7,
            Stage::Rlimit => 8,
            Stage::Landlock => 9,
            Stage::Env => 10,
            Stage::Capabilities => 11,
            Stage::Setsid => 12,
            Stage::Fd => 13,
            Stage::Tsc => 14,
            Stage::NoNewPrivs => 15,
            Stage::Mdwe => 16,
            Stage::Seccomp => 17,
            Stage::Cwd => 18,
            Stage::Exec => 19,
            Stage::Completion => 20,
        }
    }

    /// The stage that `v` is the number of, if there is one.
    pub open spec fn numbered(v: u16) -> Option<Stage> {
        if v == 1 {
            Some(Stage::ParentDeathSignal)
        } else if v == 2 {
            Some(Stage::ParentCheck)
        } else if v == 3 {
            Some(Stage::SyncWait)
        } else if v == 4 {
            Some(Stage::Dumpable)
        } else if v == 5 {
            Some(Stage::Mount)
        } else if v == 6 {
            Some(Stage::Hostname)
        } else if v == 7 {
            Some(Stage::Network)
        } else if v == 8 {
            Some(Stage::Rlimit)
        } else if v == 9 {
            Some(Stage::Landlock)
        } else if v == 10 {
            Some(Stage::Env)
        } else if v == 11 {
            Some(Stage::Capabilities)
        } else if v == 12 {
            Some(Stage::Setsid)
        } else if v == 13 {
            Some(Stage::Fd)
        } else if v == 14 {
            Some(Stage::Tsc)
        } else if v == 15 {
            Some(Stage::NoNewPrivs)
        } else if v == 16 {
            Some(Stage::Mdwe)
        } else if v == 17 {
            Some(Stage::Seccomp)
        } else if v == 18 {
            Some(Stage::Cwd)
        } else if v == 19 {
            Some(Stage::Exec)
        } else if v == 20 {
            Some(Stage::Completion)
        } else {
            None
        }
    }

    /// The stage that `v` is the number of.
    pub fn from_u16(v: u16) -> (r: Option<Self>)
        ensures
            r == Self::numbered(v),
    {
        match v {
            1 => Some(Stage::ParentDeathSignal),
            2 => Some(Stage::ParentCheck),
            3 => Some(Stage::SyncWait),
            4 => Some(Stage::Dumpable),
            5 => Some(Stage::Mount),
            6 => Some(Stage::Hostname),
            7 => Some(Stage::Network),
            8 => Some(Stage::Rlimit),
            9 => Some(Stage::Landlock),
            10 => Some(Stage::Env),
            11 => Some(Stage::Capabilities),
            12 => Some(Stage::Setsid),
            13 => Some(Stage::Fd),
            14 => Some(Stage::Tsc),
            15 => Some(Stage::NoNewPrivs),
            16 => Some(Stage::Mdwe),
            17 => Some(Stage::Seccomp),
            18 => Some(Stage::Cwd),
            19 => Some(Stage::Exec),
            20 => Some(Stage::Completion),
            _ => None,
        }
    }

    /// The line that stands in for the failure record when there is nowhere to
    /// write the record.
    pub open spec fn fallback_text(self) -> Seq<char> {
        match self {
            Stage::ParentDeathSignal => "pnut: failed to set PR_SET_PDEATHSIG\n"@,
            Stage::ParentCheck => "pnut: parent already exited\n"@,
            Stage::SyncWait => "pnut: parent failed during setup\n"@,
            Stage::Dumpable => "pnut: failed to set PR_SET_DUMPABLE\n"@,
            Stage::Mount => "pnut: mount setup failed\n"@,
            Stage::Hostname => "pnut: failed to set hostname\n"@,
            Stage::Network => "pnut: loopback setup failed\n"@,
            Stage::Rlimit => "pnut: rlimits setup failed\n"@,
            Stage::Landlock => "pnut: landlock setup failed\n"@,
            Stage::Env => "pnut: environment setup failed\n"@,
            Stage::Capabilities => "pnut: capability setup failed\n"@,
            Stage::Setsid => "pnut: setsid failed\n"@,
            Stage::Fd => "pnut: fd setup failed\n"@,
            Stage::Tsc => "pnut: failed to set TSC\n"@,
            Stage::NoNewPrivs => "pnut: failed to set NO_NEW_PRIVS\n"@,
            Stage::Mdwe => "pnut: failed to set PR_SET_MDWE\n"@,
            Stage::Seccomp => "pnut: seccomp filter installation failed\n"@,
            Stage::Cwd => "pnut: failed to set working directory\n"@,
            Stage::Exec => "pnut: exec failed\n"@,
            Stage::Completion => "pnut: completion evidence failed\n"@,
        }
    }

    /// The line that stands in for the failure record when there is nowhere to
    /// write the record.
    pub fn fallback_line(self) -> (r: &'static str)
        ensures
            r@ == self.fallback_text(),
    {
        match self {
            Stage::ParentDeathSignal => "pnut: failed to set PR_SET_PDEATHSIG\n",
            Stage::ParentCheck => "pnut: parent already exited\n",
            Stage::SyncWait => "pnut: parent failed during setup\n",
            Stage::Dumpable => "pnut: failed to set PR_SET_DUMPABLE\n",
            Stage::Mount => "pnut: mount setup failed\n",
            Stage::Hostname => "pnut: failed to set hostname\n",
            Stage::Network => "pnut: loopback setup failed\n",
            Stage::Rlimit => "pnut: rlimits setup failed\n",
            Stage::Landlock => "pnut: landlock setup failed\n",
            Stage::Env => "pnut: environment setup failed\n",
            Stage::Capabilities => "pnut: capability setup failed\n",
            Stage::Setsid => "pnut: setsid failed\n",
            Stage::Fd => "pnut: fd setup failed\n",
            Stage::Tsc => "pnut: failed to set TSC\n",
            Stage::NoNewPrivs => "pnut: failed to set NO_NEW_PRIVS\n",
            Stage::Mdwe => "pnut: failed to set PR_SET_MDWE\n",
            Stage::Seccomp => "pnut: seccomp filter installation failed\n",
            Stage::Cwd => "pnut: failed to set working directory\n",
            Stage::Exec => "pnut: exec failed\n",
            Stage::Completion => "pnut: completion evidence failed\n",
        }
    }
}

/// Every stage is found again by its number, and only by that, so that no two
/// stages share one.
pub proof fn law_stage_numbers(stage: Stage, v: u16)
    ensures
        Stage::numbered(v) == Some(stage) <==> v == stage.number(),
{
}

/// Byte length of one failure record.
pub const CHILD_FAILURE_LEN: usize = 16;

/// Fixed-layout fatal child failure record.
#[derive(Clone, Copy, Debug, PartialEq, Eq, Structural)]
pub struct ChildFailure {
    pub version: u16,
    pub stage: u16,
    pub errno: i32,
    pub detail: i32,
    pub exit_code: i32,
}

impl ChildFailure {
    /// Version of the record's layout.
    pub const VERSION: u16 = 1;

    /// The failure of `stage`, in the current version.
    pub fn new(stage: Stage, errno: i32, detail: i32, exit_code: i32) -> (r: Self)
        ensures
            r == (ChildFailure {
                version: Self::VERSION,
                stage: stage.number(),
                errno,
                detail,
                exit_code,
            }),
    {
        ChildFailure { version: Self::VERSION, stage: stage.to_u16(), errno, detail, exit_code }
    }

    /// The record as it stands in memory: its fields one after the other, each
    /// in the machine's byte order.
    pub open spec fn layout(self, order: ByteOrder) -> Seq<u8> {
        crate::bytes::bytes16(self.version, order) + crate::bytes::bytes16(self.stage, order)
            + crate::bytes::bytes32(self.errno as u32, order) + crate::bytes::bytes32(
            self.detail as u32,
            order,
        ) + crate::bytes::bytes32(self.exit_code as u32, order)
    }

    /// The record as it stands in memory.
    pub fn to_bytes(&self, order: ByteOrder) -> (r: [u8; CHILD_FAILURE_LEN])
        ensures
            r@ == self.layout(order),
    {
        let v = split16(self.version, order);
        let s = split16(self.stage, order);
        let e = split32(self.errno as u32, order);
        let d = split32(self.detail as u32, order);
        let x = split32(self.exit_code as u32, order);
        let r: [u8; CHILD_FAILURE_LEN] = [
            v[0],
            v[1],
            s[0],
            s[1],
            e[0],
            e[1],
            e[2],
            e[3],
            d[0],
            d[1],
            d[2],
            d[3],
            x[0],
            x[1],
            x[2],
            x[3],
        ];
        assert(r@ =~= self.layout(order));
        r
    }

    /// Reads a record back from its bytes in memory.
    pub fn from_bytes(bytes: &[u8; CHILD_FAILURE_LEN], order: ByteOrder) -> (r: Self)
        ensures
            r.layout(order) == bytes@,
    {
        let version: u16 = join16(bytes[0], bytes[1], order);
        let stage: u16 = join16(bytes[2], bytes[3], order);
        let e: u32 = join32(bytes[4], bytes[5], bytes[6], bytes[7], order);
        let d: u32 = join32(bytes[8], bytes[9], bytes[10], bytes[11], order);
        let x: u32 = join32(bytes[12], bytes[13], bytes[14], bytes[15], order);
        let r = ChildFailure {
            version,
            stage,
            errno: e as i32,
            detail: d as i32,
            exit_code: x as i32,
        };
        assert(e as i32 as u32 == e) by (bit_vector);
        assert(d as i32 as u32 == d) by (bit_vector);
        assert(x as i32 as u32 == x) by (bit_vector);
        assert(r.layout(order) =~= bytes@);
        r
    }
}

/// Two records with the same bytes in memory are the same record, so that what
/// [`ChildFailure::from_bytes`] gives back is what [`ChildFailure::to_bytes`] wrote.
pub proof fn law_failure_record_round_trip(a: ChildFailure, b: ChildFailure, order: ByteOrder)
    requires
        a.layout(order) == b.layout(order),
    ensures
        a == b,
{
    let la = a.layout(order);
    let lb = b.layout(order);
    assert(la.subrange(0, 2) =~= crate::bytes::bytes16(a.version, order));
    assert(lb.subrange(0, 2) =~= crate::bytes::bytes16(b.version, order));
    crate::bytes::law_bytes16_injective(a.version, b.version, order);
    assert(la.subrange(2, 4) =~= crate::bytes::bytes16(a.stage, order));
    assert(lb.subrange(2, 4) =~= crate::bytes::bytes16(b.stage, order));
    crate::bytes::law_bytes16_injective(a.stage, b.stage, order);
    assert(la.subrange(4, 8) =~= crate::bytes::bytes32(a.errno as u32, order));
    assert(lb.subrange(4, 8) =~= crate::bytes::bytes32(b.errno as u32, order));
    crate::bytes::law_bytes32_injective(a.errno as u32, b.errno as u32, order);
    assert(la.subrange(8, 12) =~= crate::bytes::bytes32(a.detail as u32, order));
    assert(lb.subrange(8, 12) =~= crate::bytes::bytes32(b.detail as u32, order));
    crate::bytes::law_bytes32_injective(a.detail as u32, b.detail as u32, order);
    assert(la.subrange(12, 16) =~= crate::bytes::bytes32(a.exit_code as u32, order));
    assert(lb.subrange(12, 16) =~= crate::bytes::bytes32(b.exit_code as u32, order));
    crate::bytes::law_bytes32_injective(a.exit_code as u32, b.exit_code as u32, order);
    lemma_same_as_unsigned(a.errno, b.errno);
    lemma_same_as_unsigned(a.detail, b.detail);
    lemma_same_as_unsigned(a.exit_code, b.exit_code);
}

proof fn lemma_same_as_unsigned(a: i32, b: i32)
    requires
        a as u32 == b as u32,
    ensures
        a == b,
{
    assert(a == b) by (bit_vector)
        requires
            a as u32 == b as u32,
    ;
}

/// One fatal failure, ready to be told.
///
/// The record goes to the status descriptor. Where there is none, or the write
/// fails, the fallback parts go to standard error, one after the other.
#[derive(Clone, Copy, Debug)]
pub struct Report<'a> {
    pub failure: ChildFailure,
    pub status_fd: Option<i32>,
    pub fallback: [&'a [u8]; 3],
}

/// Status-fd writer for fatal child failures.
#[derive(Clone, Copy, Debug, PartialEq, Eq)]
pub struct Reporter {
    status_fd: Option<i32>,
}

/// How the message about a failed `execve` begins.
pub open spec fn exec_prefix(err: Errno) -> Seq<char> {
    if err.0 == ENOENT {
        "pnut: command not found: "@
    } else if err.0 == EACCES {
        "pnut: permission denied: "@
    } else {
        "pnut: exec failed: "@
    }
}

impl Reporter {
    /// The descriptor that records go to.
    pub closed spec fn spec_status_fd(self) -> Option<i32> {
        self.status_fd
    }

    /// A reporter that writes its records to `status_fd`, if there is one.
    pub fn new(status_fd: Option<i32>) -> (r: Self)
        ensures
            r.spec_status_fd() == status_fd,
    {
        Reporter { status_fd }
    }

    /// The report of a failed system call.
    pub fn report_errno(&self, stage: Stage, err: Errno, detail: i32, exit_code: i32) -> (r: Report<
        'static,
    >)
        ensures
            r.failure == (ChildFailure {
                version: ChildFailure::VERSION,
                stage: stage.number(),
                errno: err.0,
                detail,
                exit_code,
            }),
            r.status_fd == self.spec_status_fd(),
            r.fallback[0]@ == vstd::utf8::encode_utf8(stage.fallback_text()),
            r.fallback[1]@.len() == 0,
            r.fallback[2]@.len() == 0,
    {
        let line: &'static [u8] = stage.fallback_line().as_bytes();
        let none: &'static [u8] = &[];
        Report {
            failure: ChildFailure::new(stage, err.0, detail, exit_code),
            status_fd: self.status_fd,
            fallback: [line, none, none],
        }
    }

    /// The report of a condition that no system call raised.
    pub fn report_logic(&self, stage: Stage, detail: i32, exit_code: i32) -> (r: Report<'static>)
        ensures
            r.failure == (ChildFailure {
                version: ChildFailure::VERSION,
                stage: stage.number(),
                errno: 0,
                detail,
                exit_code,
            }),
            r.status_fd == self.spec_status_fd(),
            r.fallback[0]@ == vstd::utf8::encode_utf8(stage.fallback_text()),
            r.fallback[1]@.len() == 0,
            r.fallback[2]@.len() == 0,
    {
        self.report_errno(stage, Errno(0), detail, exit_code)
    }

    /// The report of a failed `execve` of `path`.
    pub fn report_exec_errno<'p>(&self, err: Errno, exit_code: i32, path: ZStr<'p>) -> (r: Report<
        'p,
    >)
        ensures
            r.failure == (ChildFailure {
                version: ChildFailure::VERSION,
                stage: Stage::Exec.number(),
                errno: err.0,
                detail: 0,
                exit_code,
            }),
            r.status_fd == self.spec_status_fd(),
            r.fallback[0]@ == vstd::utf8::encode_utf8(exec_prefix(err)),
            r.fallback[1]@ == path@,
            r.fallback[2]@ == vstd::utf8::encode_utf8("\n"@),
    {
        let prefix: &'static str = if err.0 == ENOENT {
            "pnut: command not found: "
        } else if err.0 == EACCES {
            "pnut: permission denied: "
        } else {
            "pnut: exec failed: "
        };
        Report {
            failure: ChildFailure::new(Stage::Exec, err.0, 0, exit_code),
            status_fd: self.status_fd,
            fallback: [prefix.as_bytes(), path.to_bytes(), "\n".as_bytes()],
        }
    }
}

/// The stages are numbered from one on in the order in which a child takes them,
/// with completion evidence last, and each has a line of its own that says what
/// failed.
pub proof fn law_numbers_and_lines_of_stages(stage: Stage, number: u16, line: &'static str)
    requires
        call_ensures(Stage::to_u16, (stage,), number),
        call_ensures(Stage::fallback_line, (stage,), line),
    ensures
        stage is ParentDeathSignal ==> number == 1 && line@
            == "pnut: failed to set PR_SET_PDEATHSIG\n"@,
        stage is ParentCheck ==> number == 2 && line@ == "pnut: parent already exited\n"@,
        stage is SyncWait ==> number == 3 && line@ == "pnut: parent failed during setup\n"@,
        stage is Dumpable ==> number == 4 && line@ == "pnut: failed to set PR_SET_DUMPABLE\n"@,
        stage is Mount ==> number == 5 && line@ == "pnut: mount setup failed\n"@,
        stage is Hostname ==> number == 6 && line@ == "pnut: failed to set hostname\n"@,
        stage is Network ==> number == 7 && line@ == "pnut: loopback setup failed\n"@,
        stage is Rlimit ==> number == 8 && line@ == "pnut: rlimits setup failed\n"@,
        stage is Landlock ==> number == 9 && line@ == "pnut: landlock setup failed\n"@,
        stage is Env ==> number == 10 && line@ == "pnut: environment setup failed\n"@,
        stage is Capabilities ==> number == 11 && line@ == "pnut: capability setup failed\n"@,
        stage is Setsid ==> number == 12 && line@ == "pnut: setsid failed\n"@,
        stage is Fd ==> number == 13 && line@ == "pnut: fd setup failed\n"@,
        stage is Tsc ==> number == 14 && line@ == "pnut: failed to set TSC\n"@,
        stage is NoNewPrivs ==> number == 15 && line@ == "pnut: failed to set NO_NEW_PRIVS\n"@,
        stage is Mdwe ==> number == 16 && line@ == "pnut: failed to set PR_SET_MDWE\n"@,
        stage is Seccomp ==> number == 17 && line@ == "pnut: seccomp filter installation failed\n"@,
        stage is Cwd ==> number == 18 && line@ == "pnut: failed to set working directory\n"@,
        stage is Exec ==> number == 19 && line@ == "pnut: exec failed\n"@,
        stage is Completion ==> number == 20 && line@ == "pnut: completion evidence failed\n"@,
{
}

/// A number is read back as the stage that it is the number of, and nothing else is
/// read as a stage.
pub proof fn law_stages_are_read_back(stage: Stage, number: u16, v: u16, r: Option<Stage>)
    requires
        call_ensures(Stage::to_u16, (stage,), number),
        call_ensures(Stage::from_u16, (v,), r),
    ensures
        r == Some(stage) <==> v == number,
        r is Some <==> 1 <= v <= 20,
{
    law_stage_numbers(stage, v);
}

/// A failure record has its fields one after the other, each at its own place and in
/// the machine's byte order.
pub proof fn law_places_in_a_failure_record(
    failure: ChildFailure,
    order: ByteOrder,
    r: [u8; CHILD_FAILURE_LEN],
)
    requires
        call_ensures(ChildFailure::to_bytes, (&failure, order), r),
    ensures
        order is Little ==> {
            &&& r@[0] + 0x100 * r@[1] == failure.version
            &&& r@[2] + 0x100 * r@[3] == failure.stage
            &&& r@[4] + 0x100 * r@[5] + 0x1_0000 * r@[6] + 0x100_0000 * r@[7]
                == failure.errno as u32
            &&& r@[8] + 0x100 * r@[9] + 0x1_0000 * r@[10] + 0x100_0000 * r@[11]
                == failure.detail as u32
            &&& r@[12] + 0x100 * r@[13] + 0x1_0000 * r@[14] + 0x100_0000 * r@[15]
                == failure.exit_code as u32
        },
        order is Big ==> {
            &&& r@[1] + 0x100 * r@[0] == failure.version
            &&& r@[3] + 0x100 * r@[2] == failure.stage
            &&& r@[7] + 0x100 * r@[6] + 0x1_0000 * r@[5] + 0x100_0000 * r@[4]
                == failure.errno as u32
            &&& r@[11] + 0x100 * r@[10] + 0x1_0000 * r@[9] + 0x100_0000 * r@[8]
                == failure.detail as u32
            &&& r@[15] + 0x100 * r@[14] + 0x1_0000 * r@[13] + 0x100_0000 * r@[12]
                == failure.exit_code as u32
        },
{
    crate::bytes::lemma_digits32(failure.errno as u32, order);
    crate::bytes::lemma_digits32(failure.detail as u32, order);
    crate::bytes::lemma_digits32(failure.exit_code as u32, order);
    let e = crate::bytes::bytes32(failure.errno as u32, order);
    let d = crate::bytes::bytes32(failure.detail as u32, order);
    let x = crate::bytes::bytes32(failure.exit_code as u32, order);
    assert(r@[4] == e[0] && r@[5] == e[1] && r@[6] == e[2] && r@[7] == e[3]);
    assert(r@[8] == d[0] && r@[9] == d[1] && r@[10] == d[2] && r@[11] == d[3]);
    assert(r@[12] == x[0] && r@[13] == x[1] && r@[14] == x[2] && r@[15] == x[3]);
}

/// Reading a failure record back gives the failure that was written.
pub proof fn law_reading_undoes_writing(
    failure: ChildFailure,
    order: ByteOrder,
    bytes: [u8; CHILD_FAILURE_LEN],
    r: ChildFailure,
)
    requires
        call_ensures(ChildFailure::to_bytes, (&failure, order), bytes),
        call_ensures(ChildFailure::from_bytes, (&bytes, order), r),
    ensures
        r == failure,
{
    law_failure_record_round_trip(failure, r, order);
}

/// A report is about the stage, the error and the status that it was made for, in
/// the current version. One of a failed execution names the command.
pub proof fn law_reports_say_what_failed(
    reporter: Reporter,
    stage: Stage,
    number: u16,
    err: Errno,
    detail: i32,
    exit_code: i32,
    path: ZStr,
    a: Report<'static>,
    b: Report<'static>,
    c: Report,
)
    requires
        call_ensures(Stage::to_u16, (stage,), number),
        call_ensures(Reporter::report_errno, (&reporter, stage, err, detail, exit_code), a),
        call_ensures(Reporter::report_logic, (&reporter, stage, detail, exit_code), b),
        call_ensures(Reporter::report_exec_errno, (&reporter, err, exit_code, path), c),
    ensures
        a.failure == (ChildFailure { version: 1, stage: number, errno: err.0, detail, exit_code }),
        b.failure == (ChildFailure { version: 1, stage: number, errno: 0, detail, exit_code }),
        c.failure == (ChildFailure { version: 1, stage: 19, errno: err.0, detail: 0, exit_code }),
        c.fallback[1]@ == path@,
        a.status_fd == reporter.spec_status_fd() && b.status_fd == reporter.spec_status_fd()
            && c.status_fd == reporter.spec_status_fd(),
{
}

/// A reporter writes to the descriptor that it was made with.
pub proof fn law_reporter_is_as_it_was_made(status_fd: Option<i32>, r: Reporter)
    requires
        call_ensures(Reporter::new, (status_fd,), r),
    ensures
        r.spec_status_fd() == status_fd,
{
}

} // verus!
