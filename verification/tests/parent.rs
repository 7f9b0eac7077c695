use nix::sys::signal::Signal;
use pnut::bytes::ByteOrder;
use pnut::clone::{clone_args, clone_flags, do_clone3, ChildHandle, CloneResult};
use pnut::config::{Command, IdMap, Namespaces, ProcessOptions, Sandbox, Table};
use pnut::error::{Cause, Error, SetupStage};
use pnut::failure::{
    decode_child_failure, describe_child_failure, format_child_failure, pidfd_send_signal,
};
use pnut::idmap::IdMapFile;
use pnut::launch::{Launch, LaunchCommand, LaunchReply, PipeEnd};
use pnut::runtime::{self, Reply, Runtime};
use pnut::supervise::{
    supervision_signal_mask, SuperviseCommand, SuperviseReply, Supervision,
};
use pnut::{ChildFailure, ChildSpec, Errno, ExecSpec, FdSpec, ProcessSpec, Stage, ZStr};

fn namespaces() -> Namespaces {
    Namespaces {
        user: true,
        pid: true,
        mount: false,
        uts: false,
        ipc: false,
        net: false,
        cgroup: false,
        time: false,
        hostname: None,
    }
}

fn sandbox() -> Sandbox {
    Sandbox {
        command: Command {
            args: vec!["/bin/cmd".to_string()],
            argv0: None,
            cwd: "/".to_string(),
        },
        process: ProcessOptions {
            die_with_parent: false,
            dumpable: false,
            new_session: false,
            disable_tsc: false,
            no_new_privs: false,
            mdwe: false,
            forward_signals: true,
        },
        namespaces: namespaces(),
        env: None,
        rlimits: None,
        mounts: Table { entries: Vec::new() },
        landlock: None,
        capabilities: None,
        fd: None,
        seccomp_program: None,
        uid_map: Some(IdMap { inside: 0, outside: 1000, count: 1 }),
        gid_map: Some(IdMap { inside: 5, outside: 100, count: 10 }),
    }
}

#[test]
fn mask_holds_the_forwarded_signals_and_sigchld() {
    let mask = supervision_signal_mask();
    let wanted = [
        Signal::SIGTERM,
        Signal::SIGINT,
        Signal::SIGHUP,
        Signal::SIGQUIT,
        Signal::SIGUSR1,
        Signal::SIGUSR2,
        Signal::SIGCHLD,
    ];
    for signal in Signal::iterator() {
        assert_eq!(mask.contains(signal), wanted.contains(&signal));
    }
}

#[test]
fn clone_flags_are_the_chosen_namespaces() {
    let mut ns = namespaces();
    assert_eq!(clone_flags(&ns), (libc::CLONE_NEWUSER | libc::CLONE_NEWPID) as u64);
    ns.mount = true;
    ns.uts = true;
    ns.ipc = true;
    ns.net = true;
    ns.cgroup = true;
    ns.time = true;
    let all = libc::CLONE_NEWUSER
        | libc::CLONE_NEWPID
        | libc::CLONE_NEWNS
        | libc::CLONE_NEWUTS
        | libc::CLONE_NEWIPC
        | libc::CLONE_NEWNET
        | libc::CLONE_NEWCGROUP
        | libc::CLONE_NEWTIME;
    assert_eq!(clone_flags(&ns), all as u64);
    let args = clone_args(&ns);
    assert_eq!(args.flags, (all | libc::CLONE_PIDFD) as u64);
    assert_eq!(args.exit_signal, libc::SIGCHLD as u64);
}

#[test]
fn clone_answers_are_taken_apart() {
    let answer = |ret, pidfd| CloneResult { ret, pidfd, errno: Errno(libc::EPERM) };
    assert_eq!(do_clone3(answer(0, -1)).unwrap(), None);
    assert_eq!(do_clone3(answer(77, 4)).unwrap(), Some(ChildHandle { pid: 77, pidfd: 4 }));
    match do_clone3(answer(-1, -1)).unwrap_err() {
        Error::Setup { stage, context, source: Cause::Os(errno) } => {
            assert_eq!(stage, SetupStage::Clone);
            assert_eq!(context, "clone3 failed");
            assert_eq!(errno, Errno(libc::EPERM));
        }
        other => panic!("unexpected: {other:?}"),
    }
    match do_clone3(answer(77, -1)).unwrap_err() {
        Error::Setup { context, source: Cause::Os(errno), .. } => {
            assert_eq!(context, "clone3 succeeded but CLONE_PIDFD did not return a valid fd");
            assert_eq!(errno, Errno(libc::EBADF));
        }
        other => panic!("unexpected: {other:?}"),
    }
}

#[test]
fn id_maps_are_written_in_order() {
    let uid = IdMap { inside: 0, outside: 1000, count: 1 };
    let gid = IdMap { inside: 5, outside: 100, count: 10 };
    let mut file = Some(IdMapFile::Setgroups);
    let mut seen = Vec::new();
    while let Some(current) = file {
        seen.push((current.path(321), current.content(&uid, &gid)));
        file = current.next();
    }
    assert_eq!(
        seen,
        vec![
            ("/proc/321/setgroups".to_string(), "deny".to_string()),
            ("/proc/321/uid_map".to_string(), "0 1000 1\n".to_string()),
            ("/proc/321/gid_map".to_string(), "5 100 10\n".to_string()),
        ]
    );
}

#[test]
fn failures_are_put_into_words() {
    let args = vec!["/bin/cmd".to_string()];
    let none: Vec<String> = Vec::new();
    let say = |stage, errno, detail| {
        describe_child_failure(&ChildFailure::new(stage, errno, detail, 126), &args, "Oops")
    };
    assert_eq!(say(Stage::Exec, libc::ENOENT, 0), "command not found: /bin/cmd");
    assert_eq!(say(Stage::Exec, libc::EACCES, 0), "permission denied: /bin/cmd");
    assert_eq!(say(Stage::Exec, libc::ENOEXEC, 0), "exec failed: Oops");
    assert_eq!(say(Stage::Mount, libc::EPERM, 1002), "mount setup failed (entry 1002): Oops");
    assert_eq!(say(Stage::Mount, libc::EPERM, -1), "mount setup failed: Oops");
    assert_eq!(say(Stage::ParentCheck, 0, 1), "parent already exited");
    assert_eq!(say(Stage::SyncWait, libc::EPIPE, 0), "parent failed during setup");
    assert_eq!(say(Stage::ParentDeathSignal, 1, 0), "failed to set PR_SET_PDEATHSIG: Oops");
    assert_eq!(say(Stage::Dumpable, 1, 0), "failed to set PR_SET_DUMPABLE: Oops");
    assert_eq!(say(Stage::Hostname, 1, 0), "failed to set hostname: Oops");
    assert_eq!(say(Stage::Network, 1, 0), "loopback setup failed: Oops");
    assert_eq!(say(Stage::Rlimit, 1, 0), "rlimits setup failed: Oops");
    assert_eq!(say(Stage::Landlock, 1, 0), "landlock setup failed: Oops");
    assert_eq!(say(Stage::Env, 1, 0), "environment setup failed: Oops");
    assert_eq!(say(Stage::Capabilities, 1, 0), "capability setup failed: Oops");
    assert_eq!(say(Stage::Setsid, 1, 0), "setsid failed: Oops");
    assert_eq!(say(Stage::Fd, 1, 0), "fd setup failed: Oops");
    assert_eq!(say(Stage::Tsc, 1, 0), "failed to set TSC: Oops");
    assert_eq!(say(Stage::NoNewPrivs, 1, 0), "failed to set NO_NEW_PRIVS: Oops");
    assert_eq!(say(Stage::Mdwe, 1, 0), "failed to set PR_SET_MDWE: Oops");
    assert_eq!(say(Stage::Seccomp, 1, 0), "seccomp filter installation failed: Oops");
    assert_eq!(say(Stage::Cwd, 1, 0), "failed to set working directory: Oops");
    assert_eq!(say(Stage::Completion, 1, 0), "completion evidence failed: Oops");
    let mut unknown = ChildFailure::new(Stage::Exec, 1, 0, 126);
    unknown.stage = 99;
    assert_eq!(
        describe_child_failure(&unknown, &args, "Oops"),
        "child setup failed (stage 99): Oops"
    );
    assert_eq!(
        describe_child_failure(
            &ChildFailure::new(Stage::Exec, libc::ENOENT, 0, 127),
            &none,
            ""
        ),
        "command not found: <unknown>"
    );
}

#[test]
fn system_texts_are_part_of_the_message() {
    let failure = ChildFailure::new(Stage::Hostname, libc::EPERM, 0, 126);
    let said = format_child_failure(&failure, &sandbox());
    let text = std::io::Error::from_raw_os_error(libc::EPERM).to_string();
    assert_eq!(said, format!("failed to set hostname: {text}"));
    let failure = ChildFailure::new(Stage::Completion, 0, 1, 126);
    assert_eq!(format_child_failure(&failure, &sandbox()), "completion evidence failed: ");
}

#[test]
fn status_is_a_failure_only_if_it_is_whole_and_known() {
    let failure = ChildFailure::new(Stage::Cwd, libc::ENOENT, 0, 126);
    for order in [ByteOrder::Little, ByteOrder::Big] {
        let record = failure.to_bytes(order);
        assert!(decode_child_failure(0, &[0; 16], order, &sandbox()).is_none());
        assert!(decode_child_failure(15, &record, order, &sandbox()).is_none());
        assert!(decode_child_failure(-1, &record, order, &sandbox()).is_none());
        let mut other = failure;
        other.version = 2;
        assert!(decode_child_failure(16, &other.to_bytes(order), order, &sandbox()).is_none());
        match decode_child_failure(16, &record, order, &sandbox()) {
            Some(Error::ChildSetup { stage, errno, detail, exit_code, message }) => {
                assert_eq!(stage, Stage::Cwd);
                assert_eq!((errno, detail, exit_code), (libc::ENOENT, 0, 126));
                assert_eq!(message, format_child_failure(&failure, &sandbox()));
                assert!(message.starts_with("failed to set working directory: "));
            }
            other => panic!("unexpected: {other:?}"),
        }
        other.version = 1;
        other.stage = 99;
        match decode_child_failure(16, &other.to_bytes(order), order, &sandbox()) {
            Some(Error::ChildSetup { stage, .. }) => assert_eq!(stage, Stage::Exec),
            other => panic!("unexpected: {other:?}"),
        }
    }
}

#[test]
fn parent_learns_what_the_child_meant() {
    let path = ZStr::from_bytes_with_nul(b"/bin/cmd\0").unwrap();
    let child = ChildSpec {
        sync_fd: Some(4),
        status_fd: Some(5),
        completion: None,
        process: ProcessSpec::default(),
        mounts: None,
        hostname: None,
        bring_up_loopback: false,
        env: None,
        rlimits: None,
        landlock: None,
        caps: None,
        fds: FdSpec::default(),
        seccomp: None,
        cwd: None,
        command: ExecSpec { path, argv: &[None] },
    };
    for order in [ByteOrder::Little, ByteOrder::Big] {
        let (mut runtime, _) = Runtime::start(&child, order);
        let command = runtime.resume(&child, Reply::Failed(Errno(libc::EPIPE)));
        let runtime::Command::WriteStatus { fd, record } = command else {
            panic!("expected a failure record");
        };
        assert_eq!(fd, 5);
        match decode_child_failure(record.len() as isize, &record, order, &sandbox()) {
            Some(Error::ChildSetup { stage, errno, detail, exit_code, message }) => {
                assert_eq!(stage, Stage::SyncWait);
                assert_eq!((errno, detail, exit_code), (libc::EPIPE, 0, 126));
                assert_eq!(message, "parent failed during setup");
            }
            other => panic!("unexpected: {other:?}"),
        }
    }
}

#[test]
fn unsent_signals_are_told_unless_the_child_is_gone() {
    assert_eq!(pidfd_send_signal(15, 0, 0, "x"), None);
    assert_eq!(pidfd_send_signal(15, -1, libc::ESRCH, "x"), None);
    assert_eq!(
        pidfd_send_signal(15, -1, libc::EPERM, "not allowed").unwrap(),
        "pnut: pidfd_send_signal(15) failed: not allowed"
    );
}

#[test]
fn supervision_forwards_and_returns_the_status() {
    let (mut supervision, command) = Supervision::start(true);
    assert!(matches!(command, SuperviseCommand::OpenSignals));
    assert!(matches!(supervision.resume(SuperviseReply::Opened), SuperviseCommand::Poll));
    assert!(matches!(supervision.resume(SuperviseReply::Interrupted), SuperviseCommand::Poll));
    assert!(matches!(
        supervision.resume(SuperviseReply::Polled { child_ended: false }),
        SuperviseCommand::ReadSignal
    ));
    assert!(matches!(
        supervision.resume(SuperviseReply::Signal(libc::SIGCHLD as u32)),
        SuperviseCommand::ReadSignal
    ));
    assert!(matches!(
        supervision.resume(SuperviseReply::Signal(libc::SIGINT as u32)),
        SuperviseCommand::Send(libc::SIGINT)
    ));
    assert!(matches!(supervision.resume(SuperviseReply::Sent), SuperviseCommand::ReadSignal));
    assert!(matches!(supervision.resume(SuperviseReply::NoSignal), SuperviseCommand::Poll));
    assert!(matches!(
        supervision.resume(SuperviseReply::Polled { child_ended: true }),
        SuperviseCommand::WaitChild
    ));
    assert!(matches!(supervision.resume(SuperviseReply::Unsettled), SuperviseCommand::Poll));
    supervision.resume(SuperviseReply::Polled { child_ended: true });
    assert!(matches!(
        supervision.resume(SuperviseReply::Exited(7)),
        SuperviseCommand::Return(7)
    ));
}

#[test]
fn any_signal_that_is_read_is_passed_on() {
    for signal in [1, libc::SIGUSR2, 64, 65, i32::MAX] {
        let (mut supervision, _) = Supervision::start(true);
        supervision.resume(SuperviseReply::Opened);
        supervision.resume(SuperviseReply::Polled { child_ended: false });
        match supervision.resume(SuperviseReply::Signal(signal as u32)) {
            SuperviseCommand::Send(sent) => assert_eq!(sent, signal),
            other => panic!("unexpected: {other:?}"),
        }
    }
}

#[test]
fn supervision_kills_if_it_does_not_forward() {
    let (mut supervision, _) = Supervision::start(false);
    supervision.resume(SuperviseReply::Opened);
    supervision.resume(SuperviseReply::Polled { child_ended: false });
    assert!(matches!(
        supervision.resume(SuperviseReply::Signal(libc::SIGTERM as u32)),
        SuperviseCommand::Send(libc::SIGKILL)
    ));
    supervision.resume(SuperviseReply::Sent);
    supervision.resume(SuperviseReply::NoSignal);
    supervision.resume(SuperviseReply::Polled { child_ended: true });
    assert!(matches!(
        supervision.resume(SuperviseReply::Killed(libc::SIGKILL)),
        SuperviseCommand::Return(137)
    ));
}

#[test]
fn supervision_says_why_it_gave_up() {
    let (mut supervision, _) = Supervision::start(true);
    match supervision.resume(SuperviseReply::OpenFailed("no".to_string())) {
        SuperviseCommand::Fail(Error::Other(message)) => {
            assert_eq!(message, "signalfd creation failed: no");
        }
        other => panic!("unexpected: {other:?}"),
    }
    let (mut supervision, _) = Supervision::start(true);
    supervision.resume(SuperviseReply::Opened);
    match supervision.resume(SuperviseReply::PollFailed("no".to_string())) {
        SuperviseCommand::Fail(Error::Other(message)) => assert_eq!(message, "poll failed: no"),
        other => panic!("unexpected: {other:?}"),
    }
}

fn cloned(launch: &mut Launch, sandbox: &Sandbox) -> LaunchCommand {
    assert!(matches!(launch.resume(sandbox, LaunchReply::Done), LaunchCommand::OpenStatusPipe));
    assert!(matches!(launch.resume(sandbox, LaunchReply::Done), LaunchCommand::BlockSignals));
    match launch.resume(sandbox, LaunchReply::Done) {
        LaunchCommand::Clone(args) => {
            let flags = libc::CLONE_NEWUSER | libc::CLONE_NEWPID | libc::CLONE_PIDFD;
            assert_eq!(args.flags, flags as u64);
        }
        other => panic!("unexpected: {other:?}"),
    }
    launch.resume(
        sandbox,
        LaunchReply::Cloned(CloneResult { ret: 55, pidfd: 9, errno: Errno(0) }),
    )
}

fn written(command: LaunchCommand) -> (String, String) {
    match command {
        LaunchCommand::WriteFile { path, content } => (path, content),
        other => panic!("unexpected: {other:?}"),
    }
}

#[test]
fn launch_runs_a_child_to_its_end() {
    let sandbox = sandbox();
    let (mut launch, command) = Launch::start(&sandbox, ByteOrder::Little);
    assert!(matches!(command, LaunchCommand::OpenSyncPipe));
    assert_eq!(launch.child(), None);
    match cloned(&mut launch, &sandbox) {
        LaunchCommand::Close(ends) => {
            assert_eq!(ends, [PipeEnd::SyncRead, PipeEnd::StatusWrite]);
        }
        other => panic!("unexpected: {other:?}"),
    }
    assert_eq!(launch.child(), Some(ChildHandle { pid: 55, pidfd: 9 }));
    assert_eq!(
        written(launch.resume(&sandbox, LaunchReply::Done)),
        ("/proc/55/setgroups".to_string(), "deny".to_string())
    );
    assert_eq!(
        written(launch.resume(&sandbox, LaunchReply::Done)),
        ("/proc/55/uid_map".to_string(), "0 1000 1\n".to_string())
    );
    assert_eq!(
        written(launch.resume(&sandbox, LaunchReply::Done)),
        ("/proc/55/gid_map".to_string(), "5 100 10\n".to_string())
    );
    assert!(matches!(launch.resume(&sandbox, LaunchReply::Done), LaunchCommand::Release));
    assert!(matches!(launch.resume(&sandbox, LaunchReply::Done), LaunchCommand::CloseSync));
    assert!(matches!(
        launch.resume(&sandbox, LaunchReply::Done),
        LaunchCommand::Supervise { forward_signals: true }
    ));
    assert!(matches!(
        launch.resume(&sandbox, LaunchReply::Supervised(Ok(3))),
        LaunchCommand::ReadStatus
    ));
    assert!(matches!(
        launch.resume(&sandbox, LaunchReply::Status { read: 0, record: [0; 16] }),
        LaunchCommand::UnblockSignals
    ));
    assert!(matches!(
        launch.resume(&sandbox, LaunchReply::Done),
        LaunchCommand::Return(Ok(3))
    ));
}

#[test]
fn launch_tells_of_a_failed_child() {
    let sandbox = sandbox();
    let (mut launch, _) = Launch::start(&sandbox, ByteOrder::Big);
    cloned(&mut launch, &sandbox);
    for _ in 0..6 {
        launch.resume(&sandbox, LaunchReply::Done);
    }
    launch.resume(&sandbox, LaunchReply::Supervised(Ok(127)));
    let record = ChildFailure::new(Stage::Exec, libc::ENOENT, 0, 127).to_bytes(ByteOrder::Big);
    assert!(matches!(
        launch.resume(&sandbox, LaunchReply::Status { read: 16, record }),
        LaunchCommand::UnblockSignals
    ));
    match launch.resume(&sandbox, LaunchReply::Done) {
        LaunchCommand::Return(Err(Error::ChildSetup { message, exit_code, .. })) => {
            assert_eq!(message, "command not found: /bin/cmd");
            assert_eq!(exit_code, 127);
        }
        other => panic!("unexpected: {other:?}"),
    }
}

#[test]
fn unmapped_child_is_reaped_and_never_released() {
    let sandbox = sandbox();
    let (mut launch, _) = Launch::start(&sandbox, ByteOrder::Little);
    cloned(&mut launch, &sandbox);
    launch.resume(&sandbox, LaunchReply::Done);
    launch.resume(&sandbox, LaunchReply::Done);
    let denied = LaunchReply::Failed(Cause::Os(Errno(libc::EPERM)));
    assert!(matches!(launch.resume(&sandbox, denied), LaunchCommand::CloseSync));
    assert!(matches!(launch.resume(&sandbox, LaunchReply::Done), LaunchCommand::Reap));
    assert!(matches!(launch.resume(&sandbox, LaunchReply::Done), LaunchCommand::UnblockSignals));
    match launch.resume(&sandbox, LaunchReply::Done) {
        LaunchCommand::Return(Err(Error::Setup { stage, context, source: Cause::Os(errno) })) => {
            assert_eq!(stage, SetupStage::IdMap);
            assert_eq!(context, "failed to write /proc/55/uid_map");
            assert_eq!(errno, Errno(libc::EPERM));
        }
        other => panic!("unexpected: {other:?}"),
    }
}

#[test]
fn unreleased_child_ends_the_launch() {
    let sandbox = sandbox();
    let (mut launch, _) = Launch::start(&sandbox, ByteOrder::Little);
    cloned(&mut launch, &sandbox);
    for _ in 0..4 {
        launch.resume(&sandbox, LaunchReply::Done);
    }
    let broken = LaunchReply::Failed(Cause::Text("broken".to_string()));
    assert!(matches!(launch.resume(&sandbox, broken), LaunchCommand::CloseSync));
    assert!(matches!(launch.resume(&sandbox, LaunchReply::Done), LaunchCommand::UnblockSignals));
    match launch.resume(&sandbox, LaunchReply::Done) {
        LaunchCommand::Return(Err(Error::Setup { stage, context, source: Cause::Text(text) })) => {
            assert_eq!(stage, SetupStage::Clone);
            assert_eq!(context, "failed to signal child via sync pipe");
            assert_eq!(text, "broken");
        }
        other => panic!("unexpected: {other:?}"),
    }
}

#[test]
fn early_failures_end_the_launch() {
    let sandbox = sandbox();
    let refused = || LaunchReply::Failed(Cause::Os(Errno(libc::EMFILE)));
    let (mut launch, _) = Launch::start(&sandbox, ByteOrder::Little);
    match launch.resume(&sandbox, refused()) {
        LaunchCommand::Return(Err(Error::Setup { context, .. })) => {
            assert_eq!(context, "pipe() failed");
        }
        other => panic!("unexpected: {other:?}"),
    }
    let (mut launch, _) = Launch::start(&sandbox, ByteOrder::Little);
    launch.resume(&sandbox, LaunchReply::Done);
    match launch.resume(&sandbox, refused()) {
        LaunchCommand::Return(Err(Error::Setup { context, .. })) => {
            assert_eq!(context, "pipe2(O_CLOEXEC) failed");
        }
        other => panic!("unexpected: {other:?}"),
    }
    let (mut launch, _) = Launch::start(&sandbox, ByteOrder::Little);
    launch.resume(&sandbox, LaunchReply::Done);
    launch.resume(&sandbox, LaunchReply::Done);
    match launch.resume(&sandbox, LaunchReply::BlockFailed("EINVAL".to_string())) {
        LaunchCommand::Return(Err(Error::Other(message))) => {
            assert_eq!(message, "failed to block signals: EINVAL");
        }
        other => panic!("unexpected: {other:?}"),
    }
}

#[test]
fn signals_are_unblocked_when_no_child_comes_about() {
    let sandbox = sandbox();
    for (answer, said, number) in [
        (
            CloneResult { ret: -1, pidfd: -1, errno: Errno(libc::EAGAIN) },
            "clone3 failed",
            libc::EAGAIN,
        ),
        (
            CloneResult { ret: 55, pidfd: -1, errno: Errno(0) },
            "clone3 succeeded but CLONE_PIDFD did not return a valid fd",
            libc::EBADF,
        ),
    ] {
        let (mut launch, _) = Launch::start(&sandbox, ByteOrder::Little);
        for _ in 0..3 {
            launch.resume(&sandbox, LaunchReply::Done);
        }
        assert!(matches!(
            launch.resume(&sandbox, LaunchReply::Cloned(answer)),
            LaunchCommand::UnblockSignals
        ));
        assert_eq!(launch.child(), None);
        match launch.resume(&sandbox, LaunchReply::Done) {
            LaunchCommand::Return(Err(Error::Setup { stage, context, source })) => {
                assert_eq!(stage, SetupStage::Clone);
                assert_eq!(context, said);
                assert!(matches!(source, Cause::Os(errno) if errno == Errno(number)));
            }
            other => panic!("unexpected: {other:?}"),
        }
    }
}

#[test]
fn launch_in_the_child_runs_the_child() {
    let sandbox = sandbox();
    let (mut launch, _) = Launch::start(&sandbox, ByteOrder::Little);
    for _ in 0..3 {
        launch.resume(&sandbox, LaunchReply::Done);
    }
    let forked = LaunchReply::Cloned(CloneResult { ret: 0, pidfd: -1, errno: Errno(0) });
    assert!(matches!(launch.resume(&sandbox, forked), LaunchCommand::UnblockSignals));
    assert_eq!(launch.child(), None);
    match launch.resume(&sandbox, LaunchReply::Done) {
        LaunchCommand::Close(ends) => {
            assert_eq!(ends, [PipeEnd::SyncWrite, PipeEnd::StatusRead]);
        }
        other => panic!("unexpected: {other:?}"),
    }
    assert!(matches!(
        launch.resume(&sandbox, LaunchReply::Done),
        LaunchCommand::RunChild { sync: PipeEnd::SyncRead, status: PipeEnd::StatusWrite }
    ));
}
