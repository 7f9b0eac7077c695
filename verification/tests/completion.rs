use pnut::bytes::ByteOrder;
use pnut::mount::MountError;
use pnut::runtime::{Action, Command, Reply, Runtime};
use pnut::seccomp::install_call;
use pnut::{
    install_seccomp, CapsSpec, ChildFailure, ChildSpec, CompletionDecodeError, CompletionRecord,
    CompletionSink, Errno, ExecSpec, FdAction, FdSpec, FilterProgram, MountPlan, ProcessSpec,
    RlimitSpec, SeccompSpec, Stage, ZStr, COMPLETE_STAGE_MASK, COMPLETION_BINDING_LEN,
    COMPLETION_RECORD_LEN,
};

const STATUS_WRITE: i32 = 21;
const COMPLETION_WRITE: i32 = 23;

fn z(text: &'static str) -> ZStr<'static> {
    ZStr::from_bytes_with_nul(text.as_bytes()).expect("NUL-terminated")
}

fn native() -> ByteOrder {
    if 1u16.to_ne_bytes()[0] == 1 {
        ByteOrder::Little
    } else {
        ByteOrder::Big
    }
}

fn allow_all() -> [libc::sock_filter; 1] {
    [libc::sock_filter {
        code: (libc::BPF_RET | libc::BPF_K) as u16,
        jt: 0,
        jf: 0,
        k: libc::SECCOMP_RET_ALLOW,
    }]
}

fn no_caps() -> CapsSpec<'static> {
    CapsSpec {
        effective: [0; 2],
        permitted: [0; 2],
        inheritable: [0; 2],
        bounding_drop: &[],
        clear_ambient: false,
    }
}

fn bare<'a>(
    status_fd: i32,
    completion: CompletionSink<'a>,
    cwd: Option<ZStr<'a>>,
    command: ExecSpec<'a>,
) -> ChildSpec<'a> {
    ChildSpec {
        sync_fd: None,
        status_fd: Some(status_fd),
        completion: Some(completion),
        process: ProcessSpec::default(),
        mounts: None,
        hostname: None,
        bring_up_loopback: false,
        env: None,
        rlimits: None,
        landlock: None,
        caps: None,
        fds: FdSpec {
            actions: &[],
            keep: &[],
            close_fds: false,
        },
        seccomp: None,
        cwd,
        command,
    }
}

fn required_spec<'a>(
    status_fd: i32,
    completion: CompletionSink<'a>,
    mounts: Option<MountPlan<'a>>,
    rlimits: Option<RlimitSpec<'a>>,
    caps: Option<CapsSpec<'a>>,
    close_fds: bool,
    no_new_privs: bool,
    seccomp: Option<SeccompSpec<'a>>,
    actions: &'a [FdAction],
    argv: &'a [Option<ZStr<'a>>],
) -> ChildSpec<'a> {
    ChildSpec {
        sync_fd: None,
        status_fd: Some(status_fd),
        completion: Some(completion),
        process: ProcessSpec {
            no_new_privs,
            ..ProcessSpec::default()
        },
        mounts,
        hostname: None,
        bring_up_loopback: false,
        env: None,
        rlimits,
        landlock: None,
        caps,
        fds: FdSpec {
            actions,
            keep: &[],
            close_fds,
        },
        seccomp,
        cwd: None,
        command: ExecSpec {
            path: z("/bin/true\0"),
            argv,
        },
    }
}

/// What became of a child whose every step succeeded, except where `answer`
/// says otherwise.
struct Outcome {
    exit_code: i32,
    completion: Vec<u8>,
    status: Vec<u8>,
    stderr: Vec<u8>,
    steps: usize,
}

fn drive(child: &ChildSpec<'_>, answer: fn(&Action<'_>) -> Option<Reply>) -> Outcome {
    let mut outcome = Outcome {
        exit_code: 0,
        completion: Vec::new(),
        status: Vec::new(),
        stderr: Vec::new(),
        steps: 0,
    };
    let (mut runtime, mut command) = Runtime::start(child, native());
    loop {
        let reply = match command {
            Command::Perform(action) => {
                outcome.steps += 1;
                let reply = answer(&action).unwrap_or(match action {
                    Action::GetParent => Reply::Parent(1000),
                    Action::Execute { .. } => Reply::Failed(Errno(libc::EACCES)),
                    _ => Reply::Done,
                });
                if let (Action::WriteCompletion { fd, record }, Reply::Done) = (&action, &reply) {
                    assert_eq!(*fd, COMPLETION_WRITE);
                    outcome.completion.extend_from_slice(record);
                }
                reply
            }
            Command::WriteStatus { fd, record } => {
                if fd < 0 {
                    Reply::Failed(Errno(libc::EBADF))
                } else {
                    assert_eq!(fd, STATUS_WRITE);
                    outcome.status.extend_from_slice(&record);
                    Reply::Done
                }
            }
            Command::WriteStderr { parts } => {
                for part in parts {
                    outcome.stderr.extend_from_slice(part);
                }
                Reply::Done
            }
            Command::Exit(code) => {
                outcome.exit_code = code;
                return outcome;
            }
        };
        command = runtime.resume(child, reply);
    }
}

fn all_well(_action: &Action<'_>) -> Option<Reply> {
    None
}

fn decode_failure(bytes: &[u8]) -> ChildFailure {
    let mut record = [0u8; 16];
    assert_eq!(bytes.len(), 16);
    record.copy_from_slice(bytes);
    ChildFailure::from_bytes(&record, native())
}

fn assert_preflight_rejected(child: &ChildSpec<'_>) {
    let outcome = drive(child, all_well);
    assert_eq!(outcome.steps, 0);
    assert_eq!(outcome.exit_code, 126);
    assert!(outcome.completion.is_empty());
    assert_eq!(outcome.status.len(), core::mem::size_of::<ChildFailure>());
    let failure = decode_failure(&outcome.status);
    assert_eq!(Stage::from_u16(failure.stage), Some(Stage::Completion));
}

#[test]
fn every_required_completion_primitive_is_mandatory() {
    let filter = allow_all();
    let argv = [Some(z("/bin/true\0")), None];
    for missing in 0..6 {
        let binding = [missing as u8; COMPLETION_BINDING_LEN];
        let child = required_spec(
            STATUS_WRITE,
            CompletionSink::new(&binding, COMPLETION_WRITE),
            (missing != 0).then_some(MountPlan { entries: &[] }),
            (missing != 1).then_some(RlimitSpec { limits: &[] }),
            (missing != 2).then_some(no_caps()),
            missing != 3,
            missing != 4,
            (missing != 5).then_some(SeccompSpec {
                program: FilterProgram {
                    len: 1,
                    filter: &filter,
                },
                flags: 0,
            }),
            &[],
            &argv,
        );
        assert_preflight_rejected(&child);
    }
}

#[test]
fn completion_fd_aliases_and_actions_are_rejected_before_setup() {
    let filter = allow_all();
    let argv = [Some(z("/bin/true\0")), None];
    for kind in 0..6u8 {
        let binding = [0xD0 + kind; COMPLETION_BINDING_LEN];
        let actions = [
            FdAction::Close(COMPLETION_WRITE),
            FdAction::Dup2 {
                src: COMPLETION_WRITE,
                dst: 9,
            },
            FdAction::Dup2 {
                src: 9,
                dst: COMPLETION_WRITE,
            },
        ];
        let completion_fd = if kind == 0 {
            STATUS_WRITE
        } else if kind == 2 {
            -1
        } else {
            COMPLETION_WRITE
        };
        let action_slice = if kind < 3 {
            &[][..]
        } else {
            &actions[(kind - 3) as usize..(kind - 2) as usize]
        };
        let mut child = required_spec(
            STATUS_WRITE,
            CompletionSink::new(&binding, completion_fd),
            Some(MountPlan { entries: &[] }),
            Some(RlimitSpec { limits: &[] }),
            Some(no_caps()),
            true,
            true,
            Some(SeccompSpec {
                program: FilterProgram {
                    len: 1,
                    filter: &filter,
                },
                flags: 0,
            }),
            action_slice,
            &argv,
        );
        if kind == 1 {
            child.sync_fd = Some(COMPLETION_WRITE);
        }
        assert_preflight_rejected(&child);
    }
}

#[test]
fn status_fd_aliases_and_actions_are_rejected_before_setup() {
    let filter = allow_all();
    let argv = [Some(z("/bin/true\0")), None];
    for kind in 0..4u8 {
        let actions = [
            FdAction::Close(STATUS_WRITE),
            FdAction::Dup2 {
                src: STATUS_WRITE,
                dst: 9,
            },
            FdAction::Dup2 {
                src: 9,
                dst: STATUS_WRITE,
            },
        ];
        let action_slice = if kind < 3 {
            &actions[kind as usize..kind as usize + 1]
        } else {
            &[]
        };
        let binding = [0xE0 + kind; COMPLETION_BINDING_LEN];
        let mut child = required_spec(
            STATUS_WRITE,
            CompletionSink::new(&binding, COMPLETION_WRITE),
            Some(MountPlan { entries: &[] }),
            Some(RlimitSpec { limits: &[] }),
            Some(no_caps()),
            true,
            true,
            Some(SeccompSpec {
                program: FilterProgram {
                    len: 1,
                    filter: &filter,
                },
                flags: 0,
            }),
            action_slice,
            &argv,
        );
        if kind == 3 {
            child.sync_fd = Some(STATUS_WRITE);
        }
        assert_preflight_rejected(&child);
    }
}

#[test]
fn completion_requires_a_nonnegative_status_fd() {
    for status_fd in [None, Some(-1)] {
        let binding = [0xEF; COMPLETION_BINDING_LEN];
        let argv = [Some(z("/bin/true\0")), None];
        let mut child = bare(
            STATUS_WRITE,
            CompletionSink::new(&binding, COMPLETION_WRITE),
            None,
            ExecSpec {
                path: z("/bin/true\0"),
                argv: &argv,
            },
        );
        child.status_fd = status_fd;
        let outcome = drive(&child, all_well);
        assert_eq!(outcome.exit_code, 126);
        assert!(outcome.completion.is_empty());
        assert!(outcome.status.is_empty());
        assert_eq!(outcome.stderr, b"pnut: completion evidence failed\n");
    }
}

#[test]
fn completion_framing_is_exact_and_strict() {
    let binding = [0xA5; COMPLETION_BINDING_LEN];
    let mut bytes = [0_u8; COMPLETION_RECORD_LEN];
    bytes[..2].copy_from_slice(&CompletionRecord::VERSION.to_le_bytes());
    bytes[2..6].copy_from_slice(&CompletionRecord::TAG);
    bytes[6..6 + COMPLETION_BINDING_LEN].copy_from_slice(&binding);
    bytes[6 + COMPLETION_BINDING_LEN..].copy_from_slice(&COMPLETE_STAGE_MASK.to_le_bytes());

    let record = CompletionRecord::decode(&bytes, &binding).expect("fixed record must decode");
    assert_eq!(record.binding(), &binding);
    assert_eq!(record.complete_stage_mask(), COMPLETE_STAGE_MASK);
    assert_eq!(
        CompletionRecord::decode(&bytes[..bytes.len() - 1], &binding),
        Err(CompletionDecodeError::Length)
    );
    let mut extra = bytes.to_vec();
    extra.push(0);
    assert_eq!(
        CompletionRecord::decode(&extra, &binding),
        Err(CompletionDecodeError::Length)
    );
    let mut reordered = bytes;
    reordered.swap(0, 2);
    assert!(CompletionRecord::decode(&reordered, &binding).is_err());
    let mut wrong_version = bytes;
    wrong_version[0] ^= 1;
    assert_eq!(
        CompletionRecord::decode(&wrong_version, &binding),
        Err(CompletionDecodeError::Version)
    );
    let mut wrong_tag = bytes;
    wrong_tag[2] ^= 1;
    assert_eq!(
        CompletionRecord::decode(&wrong_tag, &binding),
        Err(CompletionDecodeError::Tag)
    );
    let mut wrong_mask = bytes;
    wrong_mask[COMPLETION_RECORD_LEN - 1] ^= 1;
    assert_eq!(
        CompletionRecord::decode(&wrong_mask, &binding),
        Err(CompletionDecodeError::StageMask)
    );
    let wrong_binding = [0x5A; COMPLETION_BINDING_LEN];
    assert_eq!(
        CompletionRecord::decode(&bytes, &wrong_binding),
        Err(CompletionDecodeError::Binding)
    );
}

#[test]
fn setup_failure_emits_failure_and_never_completion() {
    let binding = [0x5A; COMPLETION_BINDING_LEN];
    let argv = [Some(z("/bin/true\0")), None];
    let child = bare(
        STATUS_WRITE,
        CompletionSink::new(&binding, COMPLETION_WRITE),
        Some(z("/definitely/not/a/pnut-directory\0")),
        ExecSpec {
            path: z("/bin/true\0"),
            argv: &argv,
        },
    );
    let outcome = drive(&child, all_well);
    assert_eq!(outcome.exit_code, 126);
    assert_eq!(outcome.completion, []);
    assert_eq!(outcome.status.len(), core::mem::size_of::<ChildFailure>());
}

#[test]
fn completion_fd_cannot_alias_status_fd() {
    let binding = [0x3C; COMPLETION_BINDING_LEN];
    let argv = [Some(z("/bin/true\0")), None];
    let child = bare(
        STATUS_WRITE,
        CompletionSink::new(&binding, STATUS_WRITE),
        None,
        ExecSpec {
            path: z("/bin/true\0"),
            argv: &argv,
        },
    );
    assert_preflight_rejected(&child);
}

#[test]
fn runtime_delegates_to_the_public_installer() {
    let filter = allow_all();
    let argv = [Some(z("/bin/true\0")), None];
    let binding = [0x11; COMPLETION_BINDING_LEN];
    let child = complete_spec(&binding, &filter, &argv);
    let (mut runtime, mut command) = Runtime::start(&child, native());
    loop {
        match command {
            Command::Perform(Action::InstallSeccomp(request)) => {
                let call = install_call(&request);
                assert_eq!(call.operation, libc::SECCOMP_SET_MODE_FILTER as u32);
                assert_eq!(call.flags, 7);
                assert_eq!(call.len, 1);
                assert_eq!(call.filter.len(), 1);
                assert_eq!(call.filter[0].k, libc::SECCOMP_RET_ALLOW);
                let error = install_seccomp(-1, Errno(libc::EINVAL)).unwrap_err();
                match runtime.resume(&child, Reply::Failed(Errno(error.errno()))) {
                    Command::WriteStatus { record, .. } => {
                        let failure = ChildFailure::from_bytes(&record, native());
                        assert_eq!(failure.stage, 17);
                        assert_eq!(failure.errno, libc::EINVAL);
                    }
                    other => panic!("expected a failure record, got: {other:?}"),
                }
                return;
            }
            Command::Perform(_) => command = runtime.resume(&child, Reply::Done),
            other => panic!("expected a step, got: {other:?}"),
        }
    }
}

#[test]
fn installation_succeeds_exactly_on_zero() {
    assert_eq!(install_seccomp(0, Errno(libc::EINVAL)), Ok(()));
    assert_eq!(
        install_seccomp(1, Errno(libc::ESRCH)).unwrap_err().errno(),
        libc::ESRCH
    );
}

fn complete_spec<'a>(
    binding: &'a [u8; COMPLETION_BINDING_LEN],
    filter: &'a [libc::sock_filter],
    argv: &'a [Option<ZStr<'a>>],
) -> ChildSpec<'a> {
    required_spec(
        STATUS_WRITE,
        CompletionSink::new(binding, COMPLETION_WRITE),
        Some(MountPlan { entries: &[] }),
        Some(RlimitSpec { limits: &[] }),
        Some(no_caps()),
        true,
        true,
        Some(SeccompSpec {
            program: FilterProgram { len: 1, filter },
            flags: 7,
        }),
        &[],
        argv,
    )
}

#[test]
fn evidence_is_written_once_and_before_the_command() {
    let filter = allow_all();
    let argv = [Some(z("/bin/true\0")), None];
    let binding = [0x77; COMPLETION_BINDING_LEN];
    let child = complete_spec(&binding, &filter, &argv);
    let outcome = drive(&child, all_well);
    assert_eq!(outcome.completion.len(), COMPLETION_RECORD_LEN);
    let record = CompletionRecord::decode(&outcome.completion, &binding).unwrap();
    assert_eq!(record.complete_stage_mask(), 63);
    // The command itself could not be executed.
    assert_eq!(outcome.exit_code, 126);
    let failure = decode_failure(&outcome.status);
    assert_eq!(Stage::from_u16(failure.stage), Some(Stage::Exec));
    assert_eq!(failure.errno, libc::EACCES);
}

#[test]
fn missing_command_has_its_own_status() {
    fn no_command(action: &Action<'_>) -> Option<Reply> {
        match action {
            Action::Execute { .. } => Some(Reply::Failed(Errno(libc::ENOENT))),
            _ => None,
        }
    }
    let filter = allow_all();
    let argv = [Some(z("/bin/true\0")), None];
    let binding = [0x78; COMPLETION_BINDING_LEN];
    let mut child = complete_spec(&binding, &filter, &argv);
    let outcome = drive(&child, no_command);
    assert_eq!(outcome.exit_code, 127);
    assert_eq!(decode_failure(&outcome.status).exit_code, 127);
    assert!(CompletionRecord::decode(&outcome.completion, &binding).is_ok());

    child.completion = None;
    child.status_fd = None;
    let outcome = drive(&child, no_command);
    assert_eq!(outcome.exit_code, 127);
    assert_eq!(outcome.stderr, b"pnut: command not found: /bin/true\n");
}

#[test]
fn mount_failure_keeps_its_detail_and_stops_the_child() {
    fn bad_mount(action: &Action<'_>) -> Option<Reply> {
        match action {
            Action::SetupMounts(_) => Some(Reply::MountFailed(MountError::new(
                Errno(libc::EPERM),
                1004,
            ))),
            _ => None,
        }
    }
    let filter = allow_all();
    let argv = [Some(z("/bin/true\0")), None];
    let binding = [0x79; COMPLETION_BINDING_LEN];
    let child = complete_spec(&binding, &filter, &argv);
    let outcome = drive(&child, bad_mount);
    assert_eq!(outcome.exit_code, 126);
    assert!(outcome.completion.is_empty());
    let failure = decode_failure(&outcome.status);
    assert_eq!(
        failure,
        ChildFailure::new(Stage::Mount, libc::EPERM, 1004, 126)
    );
    // The dumpable toggle comes first, and nothing follows the mounts.
    assert_eq!(outcome.steps, 2);
}

#[test]
fn failed_closing_is_told_apart_from_failed_actions() {
    fn bad_close(action: &Action<'_>) -> Option<Reply> {
        match action {
            Action::CloseOtherFds { extra_keep, .. } => {
                assert_eq!(*extra_keep, [STATUS_WRITE, COMPLETION_WRITE]);
                Some(Reply::Failed(Errno(libc::EMFILE)))
            }
            _ => None,
        }
    }
    let filter = allow_all();
    let argv = [Some(z("/bin/true\0")), None];
    let binding = [0x7A; COMPLETION_BINDING_LEN];
    let child = complete_spec(&binding, &filter, &argv);
    let failure = decode_failure(&drive(&child, bad_close).status);
    assert_eq!(failure, ChildFailure::new(Stage::Fd, libc::EMFILE, 1, 126));
}

#[test]
fn orphaned_child_gives_up() {
    fn orphan(action: &Action<'_>) -> Option<Reply> {
        match action {
            Action::GetParent => Some(Reply::Parent(1)),
            _ => None,
        }
    }
    let argv = [Some(z("/bin/true\0")), None];
    let binding = [0; COMPLETION_BINDING_LEN];
    let mut child = bare(
        STATUS_WRITE,
        CompletionSink::new(&binding, COMPLETION_WRITE),
        None,
        ExecSpec {
            path: z("/bin/true\0"),
            argv: &argv,
        },
    );
    child.completion = None;
    child.process.verify_parent_alive = true;
    let outcome = drive(&child, orphan);
    assert_eq!(
        decode_failure(&outcome.status),
        ChildFailure::new(Stage::ParentCheck, 0, 1, 126)
    );
    assert_eq!(outcome.steps, 1);
}

#[test]
fn steps_come_in_order() {
    let filter = allow_all();
    let argv = [Some(z("/bin/true\0")), None];
    let binding = [0x7B; COMPLETION_BINDING_LEN];
    let mut child = complete_spec(&binding, &filter, &argv);
    child.sync_fd = Some(30);
    child.process.pdeathsig = Some(libc::SIGKILL);
    child.process.verify_parent_alive = true;
    child.process.new_session = true;
    child.process.disable_tsc = true;
    child.process.mdwe_flags = Some(1);
    child.hostname = Some(z("host\0"));
    child.bring_up_loopback = true;
    child.cwd = Some(z("/\0"));

    let mut seen: Vec<String> = Vec::new();
    let (mut runtime, mut command) = Runtime::start(&child, native());
    while let Command::Perform(action) = command {
        let name = format!("{action:?}");
        let end = name.find(|c: char| !c.is_alphanumeric()).unwrap_or(name.len());
        seen.push(name[..end].to_string());
        let reply = match action {
            Action::GetParent => Reply::Parent(2),
            Action::Execute { .. } => break,
            _ => Reply::Done,
        };
        command = runtime.resume(&child, reply);
    }
    assert_eq!(
        seen,
        vec![
            "SetParentDeathSignal",
            "GetParent",
            "ReadSyncByte",
            "CloseSync",
            "SetDumpable",
            "SetupMounts",
            "SetHostname",
            "BringUpLoopback",
            "ApplyRlimits",
            "ApplyCaps",
            "NewSession",
            "ApplyFdActions",
            "CloseOtherFds",
            "RestrictTsc",
            "SetNoNewPrivs",
            "SetMdwe",
            "InstallSeccomp",
            "ChangeDir",
            "WriteCompletion",
            "CloseCompletion",
            "Execute",
        ]
    );
}
