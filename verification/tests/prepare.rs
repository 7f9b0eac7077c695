use bumpalo::Bump;
use caps::Capability;
use landlock::{Access, AccessFs, AccessNet, BitFlags, ABI};
use pnut::arena::alloc_cstr;
use pnut::config::{
    Capabilities, Command, Environment, FdMapping, FileDescriptors, HidePid, IdMap, Landlock,
    MountEntry, Namespaces, ProcSubset, ProcessOptions, ResourceLimits, Sandbox, Table,
};
use pnut::error::BuildError;
use pnut::prepare::landlock::{compute_handled_access_fs, compute_landlock_abi};
use pnut::prepare::mounts::SourceStat;
use pnut::prepare::sandbox::Host;
use pnut::prepare::seccomp::prepare_seccomp;
use pnut::{BindMountSource, FdAction, ZStr};

const MIB: u64 = 1024 * 1024;

fn toggles() -> ProcessOptions {
    ProcessOptions {
        die_with_parent: false,
        dumpable: false,
        new_session: false,
        disable_tsc: false,
        no_new_privs: false,
        mdwe: false,
        forward_signals: true,
    }
}

fn base(args: &[&str]) -> Sandbox {
    Sandbox {
        command: Command {
            args: args.iter().map(|arg| arg.to_string()).collect(),
            argv0: None,
            cwd: "/".to_string(),
        },
        process: toggles(),
        namespaces: Namespaces {
            user: true,
            pid: false,
            mount: false,
            uts: false,
            ipc: false,
            net: false,
            cgroup: false,
            time: false,
            hostname: None,
        },
        env: None,
        rlimits: None,
        mounts: Table { entries: Vec::new() },
        landlock: None,
        capabilities: None,
        fd: None,
        seccomp_program: None,
        uid_map: Some(IdMap { inside: 0, outside: 1000, count: 1 }),
        gid_map: Some(IdMap { inside: 0, outside: 1000, count: 1 }),
    }
}

fn bare_host() -> Host {
    Host { inherited: 0, sources: Vec::new() }
}

fn text(z: ZStr<'_>) -> &str {
    std::str::from_utf8(z.to_bytes()).unwrap()
}

fn no_landlock() -> Landlock {
    Landlock {
        allowed_read: Vec::new(),
        allowed_write: Vec::new(),
        allowed_execute: Vec::new(),
        allowed_refer: Vec::new(),
        allowed_truncate: Vec::new(),
        allowed_ioctl_dev: Vec::new(),
        allowed_bind: Vec::new(),
        allowed_connect: Vec::new(),
    }
}

fn message(error: BuildError) -> String {
    let BuildError::InvalidConfig(message) = error;
    message
}

#[test]
fn exec_spec_basic_command() {
    let sandbox = base(&["/bin/echo", "hello"]);
    let arena = Bump::new();
    let spec = sandbox.prepare(&arena, &bare_host()).unwrap();

    assert_eq!(text(spec.command.path), "/bin/echo");
    assert_eq!(spec.command.argv.len(), 3); // echo, hello, NULL
    assert!(spec.command.argv[2].is_none());
    assert_eq!(text(spec.command.argv[0].unwrap()), "/bin/echo");
    assert_eq!(text(spec.command.argv[1].unwrap()), "hello");
}

#[test]
fn interior_null_byte_in_command() {
    let sandbox = base(&["/bin/\0echo"]);
    let arena = Bump::new();
    let err = sandbox.prepare(&arena, &bare_host()).unwrap_err();
    assert!(matches!(err, BuildError::InvalidConfig(msg) if msg.contains("null byte")));
}

#[test]
fn process_spec_all_enabled() {
    let mut opts = toggles();
    opts.die_with_parent = true;
    opts.mdwe = true;
    opts.no_new_privs = true;
    opts.new_session = true;
    let arena = Bump::new();
    let spec = opts.prepare(&arena).unwrap();
    assert_eq!(spec.pdeathsig, Some(libc::SIGKILL));
    assert!(spec.verify_parent_alive);
    assert!(spec.no_new_privs);
    assert!(spec.new_session);
    assert_eq!(spec.mdwe_flags, Some(libc::PR_MDWE_REFUSE_EXEC_GAIN as u64));
    assert!(!spec.dumpable);
}

#[test]
fn env_spec_with_clear_keep_set() {
    let mut sandbox = base(&["/bin/true"]);
    sandbox.env = Some(Environment {
        clear: true,
        keep: vec!["PATH".to_string()],
        set: vec![("FOO".to_string(), "bar".to_string())],
    });
    let arena = Bump::new();
    let spec = sandbox.prepare(&arena, &bare_host()).unwrap();

    let env = spec.env.as_ref().unwrap();
    assert!(env.clear);
    assert_eq!(env.keep.len(), 1);
    assert_eq!(text(env.keep[0]), "PATH");
    assert_eq!(env.set.len(), 1);
    assert_eq!(text(env.set[0].key), "FOO");
    assert_eq!(text(env.set[0].value), "bar");
    assert_eq!(env.storage.envp.len(), 3);
    assert_eq!(env.storage.bytes.len(), 8);
}

#[test]
fn inherited_environment_gets_room() {
    let env = Environment {
        clear: false,
        keep: vec!["A".to_string(), "B".to_string()],
        set: vec![("X".to_string(), "".to_string())],
    };
    let arena = Bump::new();
    let spec = env.prepare(&arena, 17).unwrap();
    assert_eq!(spec.storage.envp.len(), 19);
    assert!(spec.storage.envp.iter().all(|entry| entry.is_none()));
    assert_eq!(*spec.storage.bytes, [0, 0, 0]);
}

#[test]
fn mount_bind_tmpfs_proc_file() {
    let mut sandbox = base(&["/bin/true"]);
    sandbox.mounts.entries = vec![
        MountEntry::Bind {
            src: "/usr".to_string(),
            dst: "/usr".to_string(),
            read_only: true,
        },
        MountEntry::Tmpfs {
            dst: "/tmp".to_string(),
            size: Some(64 * MIB),
            mode: Some(0o1777),
            read_only: false,
        },
        MountEntry::Proc {
            dst: "/proc".to_string(),
            subset: Some(ProcSubset::Pid),
            hidepid: Some(HidePid::Invisible),
        },
        MountEntry::File {
            dst: "/etc/hostname".to_string(),
            content: "test".to_string(),
            read_only: true,
        },
    ];
    let host = Host {
        inherited: 0,
        sources: vec![
            SourceStat::Directory,
            SourceStat::NotDirectory,
            SourceStat::NotDirectory,
            SourceStat::NotDirectory,
        ],
    };
    let arena = Bump::new();
    let spec = sandbox.prepare(&arena, &host).unwrap();

    let plan = spec.mounts.unwrap();
    assert_eq!(plan.entries.len(), 4);

    match &plan.entries[0] {
        pnut::MountEntry::Bind(b) => {
            let BindMountSource::Path(source) = b.source else {
                panic!("configured bind must retain its path source");
            };
            assert_eq!(text(source), "/usr");
            assert_eq!(text(b.dst_rel), "usr");
            assert!(b.read_only);
            assert!(b.src_is_dir);
        }
        other => panic!("expected Bind, got: {other:?}"),
    }
    match &plan.entries[1] {
        pnut::MountEntry::Tmpfs(t) => {
            assert_eq!(text(t.dst_rel), "tmp");
            assert_eq!(t.size_bytes, Some(64 * MIB));
            assert_eq!(t.mode, Some(0o1777));
        }
        other => panic!("expected Tmpfs, got: {other:?}"),
    }
    match &plan.entries[2] {
        pnut::MountEntry::Proc(p) => {
            assert_eq!(p.subset, Some(pnut::ProcSubset::Pid));
            assert_eq!(p.hidepid, Some(pnut::HidePid::Invisible));
        }
        other => panic!("expected Proc, got: {other:?}"),
    }
    match &plan.entries[3] {
        pnut::MountEntry::File(f) => {
            assert_eq!(f.content, b"test");
        }
        other => panic!("expected File, got: {other:?}"),
    }
}

#[test]
fn mount_targets_lose_their_leading_slashes_only() {
    let arena = Bump::new();
    for (dst, rel) in [("///a//b/", "a//b/"), ("é/x", "é/x"), ("/", ""), ("", "")] {
        let entry = MountEntry::Mqueue { dst: dst.to_string() };
        match entry.prepare(&arena, &SourceStat::NotDirectory).unwrap() {
            pnut::MountEntry::Mqueue(m) => assert_eq!(text(m.dst_rel), rel),
            other => panic!("expected Mqueue, got: {other:?}"),
        }
    }
}

#[test]
fn unreadable_bind_source_is_named() {
    let entry = MountEntry::Bind {
        src: "/gone".to_string(),
        dst: "/a\0b".to_string(),
        read_only: false,
    };
    let arena = Bump::new();
    let stat = SourceStat::Failed("No such file or directory (os error 2)".to_string());
    assert_eq!(
        message(entry.prepare(&arena, &stat).unwrap_err()),
        "cannot stat bind source /gone: No such file or directory (os error 2)"
    );
    assert_eq!(
        message(entry.prepare(&arena, &SourceStat::NotDirectory).unwrap_err()),
        "mount dst: interior null byte in \"a\0b\""
    );
}

#[test]
fn first_thing_wrong_is_named() {
    let arena = Bump::new();
    let mut sandbox = base(&["/bin/true", "ok", "b\0d"]);
    sandbox.command.cwd = "w\0".to_string();
    sandbox.namespaces.hostname = Some("h\0".to_string());
    sandbox.env = Some(Environment {
        clear: true,
        keep: vec!["k\0".to_string()],
        set: vec![("s".to_string(), "v\0".to_string())],
    });
    let mut bad = no_landlock();
    bad.allowed_refer = vec!["/l\0".to_string()];
    sandbox.landlock = Some(bad);

    let wrong = |sandbox: &Sandbox| message(sandbox.prepare(&arena, &bare_host()).unwrap_err());
    assert_eq!(wrong(&sandbox), "argv[2]: interior null byte in \"b\0d\"");
    sandbox.command.argv0 = Some("z\0".to_string());
    assert_eq!(wrong(&sandbox), "argv0 override: interior null byte in \"z\0\"");
    sandbox.command.argv0 = None;
    sandbox.command.args.pop();
    assert_eq!(wrong(&sandbox), "working directory: interior null byte in \"w\0\"");
    sandbox.command.cwd = "/".to_string();
    assert_eq!(wrong(&sandbox), "env keep key: interior null byte in \"k\0\"");
    sandbox.namespaces.uts = true;
    assert_eq!(wrong(&sandbox), "hostname: interior null byte in \"h\0\"");
    sandbox.namespaces.hostname = None;
    sandbox.env.as_mut().unwrap().keep.clear();
    assert_eq!(wrong(&sandbox), "env set value: interior null byte in \"v\0\"");
    sandbox.env.as_mut().unwrap().set[0].0 = "\0".to_string();
    assert_eq!(wrong(&sandbox), "env set key: interior null byte in \"\0\"");
    sandbox.env = None;
    assert_eq!(wrong(&sandbox), "landlock path: interior null byte in \"/l\0\"");
    sandbox.landlock = None;
    assert!(sandbox.prepare(&arena, &bare_host()).is_ok());
}

#[test]
fn plain_sandbox_asks_for_little() {
    let mut sandbox = base(&["/bin/true"]);
    sandbox.command.argv0 = Some("yes".to_string());
    sandbox.namespaces.net = true;
    sandbox.namespaces.hostname = Some("ignored".to_string());
    let arena = Bump::new();
    let spec = sandbox.prepare(&arena, &bare_host()).unwrap();
    assert_eq!(text(spec.command.path), "/bin/true");
    assert_eq!(text(spec.command.argv[0].unwrap()), "yes");
    assert!(spec.bring_up_loopback);
    assert!(spec.hostname.is_none());
    assert!(spec.mounts.is_none() && spec.env.is_none() && spec.rlimits.is_none());
    assert!(spec.landlock.is_none() && spec.caps.is_none() && spec.seccomp.is_none());
    assert!(spec.sync_fd.is_none() && spec.status_fd.is_none() && spec.completion.is_none());
    assert!(spec.fds.close_fds && spec.fds.actions.is_empty() && spec.fds.keep.is_empty());
    assert_eq!(text(spec.cwd.unwrap()), "/");
}

#[test]
fn landlock_read_execute() {
    let mut sandbox = base(&["/bin/true"]);
    let mut config = no_landlock();
    config.allowed_read = vec!["/usr".to_string()];
    config.allowed_execute = vec!["/usr/bin".to_string()];
    sandbox.landlock = Some(config);
    let arena = Bump::new();
    let spec = sandbox.prepare(&arena, &bare_host()).unwrap();

    let ll = spec.landlock.unwrap();
    assert_eq!(ll.min_abi, 1);
    assert_eq!(ll.path_rules.len(), 2);
    assert_eq!(ll.path_rules[0].allowed_access, 0xc);
    assert_eq!(text(ll.path_rules[1].path), "/usr/bin");
    assert_eq!(ll.path_rules[1].allowed_access, 0xd);
    assert_eq!(ll.ruleset.handled_access_fs, 0x1fff);
    assert_eq!(ll.ruleset.handled_access_net, 0);
}

#[test]
fn landlock_rights_are_those_of_the_kernel() {
    let mut config = no_landlock();
    config.allowed_write = vec!["/w".to_string()];
    config.allowed_refer = vec!["/r".to_string()];
    config.allowed_truncate = vec!["/t".to_string()];
    config.allowed_ioctl_dev = vec!["/i".to_string()];
    config.allowed_bind = vec![80, 443];
    config.allowed_connect = vec![53];
    let arena = Bump::new();
    let ll = config.prepare(&arena).unwrap();
    let access: Vec<u64> = ll.path_rules.iter().map(|rule| rule.allowed_access).collect();
    assert_eq!(
        access,
        vec![
            (AccessFs::from_all(ABI::V1) & !AccessFs::Execute).bits(),
            BitFlags::from(AccessFs::Refer).bits(),
            BitFlags::from(AccessFs::Truncate).bits(),
            BitFlags::from(AccessFs::IoctlDev).bits(),
        ]
    );
    let ports: Vec<(u16, u64)> =
        ll.net_rules.iter().map(|rule| (rule.port, rule.allowed_access)).collect();
    let bind = BitFlags::from(AccessNet::BindTcp).bits();
    let connect = BitFlags::from(AccessNet::ConnectTcp).bits();
    assert_eq!(ports, vec![(80, bind), (443, bind), (53, connect)]);
    assert_eq!(ll.min_abi, 5);
    assert_eq!(ll.ruleset.handled_access_fs, AccessFs::from_all(ABI::V5).bits());
    assert_eq!(ll.ruleset.handled_access_net, bind | connect);
    for rule in ll.path_rules {
        assert_eq!(rule.allowed_access & !ll.ruleset.handled_access_fs, 0);
    }
}

#[test]
fn landlock_version_follows_what_is_asked() {
    let mut config = no_landlock();
    assert_eq!(compute_landlock_abi(&config), 1);
    config.allowed_refer = vec!["/".to_string()];
    assert_eq!(compute_landlock_abi(&config), 2);
    config.allowed_truncate = vec!["/".to_string()];
    assert_eq!(compute_landlock_abi(&config), 3);
    config.allowed_connect = vec![1];
    assert_eq!(compute_landlock_abi(&config), 4);
    config.allowed_ioctl_dev = vec!["/".to_string()];
    assert_eq!(compute_landlock_abi(&config), 5);
    for (version, abi) in [
        (1, ABI::V1),
        (2, ABI::V2),
        (3, ABI::V3),
        (4, ABI::V4),
        (5, ABI::V5),
    ] {
        assert_eq!(compute_handled_access_fs(version), AccessFs::from_all(abi).bits());
    }
}

#[test]
fn landlock_version_is_the_latest_that_anything_takes() {
    let ports = Landlock { allowed_bind: vec![80], ..no_landlock() };
    assert_eq!(compute_landlock_abi(&ports), 4);
    let ports = Landlock { allowed_connect: vec![443], ..no_landlock() };
    assert_eq!(compute_landlock_abi(&ports), 4);
    let devices = Landlock { allowed_ioctl_dev: vec!["/dev".to_string()], ..no_landlock() };
    assert_eq!(compute_landlock_abi(&devices), 5);
    let mixed = Landlock {
        allowed_truncate: vec!["/a".to_string()],
        allowed_refer: vec!["/b".to_string()],
        ..no_landlock()
    };
    assert_eq!(compute_landlock_abi(&mixed), 3);
}

#[test]
fn caps_single_capability() {
    let mut sandbox = base(&["/bin/true"]);
    sandbox.capabilities = Some(Capabilities {
        keep: vec![Capability::CAP_NET_BIND_SERVICE.index()],
    });
    let arena = Bump::new();
    let spec = sandbox.prepare(&arena, &bare_host()).unwrap();

    let caps = spec.caps.unwrap();
    let nr = Capability::CAP_NET_BIND_SERVICE.index() as u32;
    assert_eq!(caps.effective[0], 1u32 << nr);
    assert!(!caps.bounding_drop.contains(&nr));
    assert_eq!(caps.effective[1], 0);
    assert_eq!(caps.permitted, caps.effective);
    assert_eq!(caps.inheritable, caps.effective);
    assert!(caps.clear_ambient);
    let mut dropped = caps.bounding_drop.to_vec();
    dropped.sort();
    let expected: Vec<u32> = (0..=40).filter(|other| *other != nr).collect();
    assert_eq!(dropped, expected);
}

#[test]
fn high_capabilities_are_in_the_second_word() {
    let arena = Bump::new();
    let config = Capabilities { keep: vec![31, 32, 40, 32] };
    let caps = config.prepare_from(&arena, &vec![40, 7, 32, 5]);
    assert_eq!(caps.effective, [1u32 << 31, 1 | 1 << 8]);
    assert_eq!(caps.bounding_drop, [7, 5]);
}

#[test]
fn fd_mapping() {
    let mut sandbox = base(&["/bin/true"]);
    sandbox.fd = Some(FileDescriptors {
        mappings: vec![FdMapping { src: 5, dst: 0 }],
        close_fds: true,
    });
    let arena = Bump::new();
    let spec = sandbox.prepare(&arena, &bare_host()).unwrap();

    assert_eq!(spec.fds.actions.len(), 1);
    assert!(spec.fds.keep.contains(&0));
    assert!(spec.fds.close_fds);
}

#[test]
fn kept_descriptors_are_in_order_and_once() {
    let mapping = |src, dst| FdMapping { src, dst };
    let config = FileDescriptors {
        mappings: vec![mapping(3, 9), mapping(4, 1), mapping(5, 7), mapping(6, 9), mapping(7, -3)],
        close_fds: false,
    };
    let arena = Bump::new();
    let fds = config.prepare(&arena).unwrap();
    assert_eq!(fds.keep, [-3, 0, 1, 2, 7, 9]);
    assert_eq!(fds.actions[0], FdAction::Dup2 { src: 3, dst: 9 });
    assert_eq!(fds.actions[4], FdAction::Dup2 { src: 7, dst: -3 });
    assert!(!fds.close_fds);
}

#[test]
fn limits_come_in_a_fixed_order() {
    let config = ResourceLimits {
        nofile: Some(1024),
        nproc: Some(64),
        fsize_mb: Some(2),
        stack_mb: Some(u64::MAX),
        as_mb: Some(1 << 44),
        core_mb: Some(0),
        cpu_seconds: Some(30),
    };
    let arena = Bump::new();
    let limits = config.prepare(&arena).unwrap();
    let seen: Vec<(i32, u64, u64)> = limits
        .limits
        .iter()
        .map(|entry| (entry.resource, entry.limit.rlim_cur, entry.limit.rlim_max))
        .collect();
    assert_eq!(
        seen,
        vec![
            (libc::RLIMIT_NOFILE as i32, 1024, 1024),
            (libc::RLIMIT_NPROC as i32, 64, 64),
            (libc::RLIMIT_FSIZE as i32, 2 * MIB, 2 * MIB),
            (libc::RLIMIT_STACK as i32, u64::MAX, u64::MAX),
            (libc::RLIMIT_AS as i32, u64::MAX, u64::MAX),
            (libc::RLIMIT_CORE as i32, 0, 0),
            (libc::RLIMIT_CPU as i32, 30, 30),
        ]
    );
}

#[test]
fn seccomp_filter_is_the_compiled_policy() {
    let program =
        kafel::compile("POLICY p { ALLOW { read, write, close } } USE p DEFAULT KILL").unwrap();
    let filter = prepare_seccomp(&program);
    let wanted = program.instructions();
    assert_eq!(filter.program.len as usize, wanted.len());
    assert_eq!(filter.program.filter.len(), wanted.len());
    for (have, want) in filter.program.filter.iter().zip(wanted) {
        assert_eq!((have.code, have.jt, have.jf, have.k), (want.code, want.jt, want.jf, want.k));
    }
    assert_eq!(filter.flags, libc::SECCOMP_FILTER_FLAG_TSYNC as u32);
}

#[test]
fn arena_strings_are_terminated() {
    let arena = Bump::new();
    let z = alloc_cstr(&arena, "häl", "text").unwrap();
    assert_eq!(z.to_bytes_with_nul(), "häl\0".as_bytes());
    assert_eq!(
        message(alloc_cstr(&arena, "\0", "text").unwrap_err()),
        "text: interior null byte in \"\0\""
    );
}
