use pnut::mount::ops::{process_mount_entry, Handle, Op};
use pnut::mount::path::{
    decimal_cstr, find_last_slash, octal_cstr, root_absolute_path, staging_name_cstr, FsKey,
    FsType, FsValue, Path, MAX_PATH_BYTES,
};
use pnut::mount::{
    report_fsconfig_failure, FsConfigCreateError, MountCommand, MountError, MountSetup,
};
use pnut::{
    BindMount, BindMountSource, Errno, FileMount, HidePid, MountEntry, MountPlan, MqueueMount,
    PreparedBindMount, ProcMount, ProcSubset, TmpfsMount, ZStr,
};

fn z(text: &'static str) -> ZStr<'static> {
    ZStr::from_bytes_with_nul(text.as_bytes()).expect("NUL-terminated")
}

fn show(path: Path<'_>) -> String {
    let mut buf = [0u8; MAX_PATH_BYTES];
    let shown = path.render(&mut buf).expect("a path that fits");
    String::from_utf8(shown.to_bytes().to_vec()).unwrap()
}

fn names(entry: MountEntry<'_>, index: usize) -> Vec<String> {
    let list = process_mount_entry(&entry, index);
    (0..list.len()).map(|i| name(list.get(i))).collect()
}

fn name(op: Op<'_>) -> String {
    match op {
        Op::SetAttr { at, path, flags, attr } => format!(
            "setattr {at:?} '{}' {flags:#x} {} {:#x}",
            show(path),
            attr.attr_set,
            attr.propagation
        ),
        Op::Mkdir { path, mode } => format!("mkdir {} {mode:o}", show(path)),
        Op::FsOpen(fs) => format!("fsopen {}", text(fs.name())),
        Op::FsConfigString { key, value } => {
            let mut buf = [0u8; 32];
            let value = text(value.render(&mut buf).unwrap());
            format!("set {}={value}", text(key.name()))
        }
        Op::FsConfigCreate => "create".to_string(),
        Op::FsMount => "fsmount".to_string(),
        Op::AttachAt { path } => format!("attach at {}", show(path)),
        Op::Attach { from, dst } => format!("attach {from:?} {}", show(dst)),
        Op::OpenDir { at, path, into } => format!("open {at:?} {} {into:?}", show(path)),
        Op::MkdirAll { path } => format!("mkdirs {}", show(path)),
        Op::CreateFile { path } => format!("touch {}", show(path)),
        Op::WriteFile { path, content } => format!("write {} {}", show(path), content.len()),
        Op::OpenTree { at, path, flags } => format!("open_tree {at:?} {} {flags:#x}", show(path)),
        Op::EnterRoot => "fchdir".to_string(),
        Op::PivotRoot { new_root, put_old } => {
            format!("pivot {} {}", show(new_root), show(put_old))
        }
        Op::Unmount { path, flags } => format!("umount {} {flags}", show(path)),
        Op::Unlink { at, path, flags, required } => {
            format!("unlink {at:?} {} {flags:#x} {required}", show(path))
        }
        Op::ChangeDir { path } => format!("chdir {}", show(path)),
        Op::SetupDev => "dev".to_string(),
        Op::Release => "release".to_string(),
        Op::Refuse(errno) => format!("refuse {}", errno.0),
    }
}

fn text(z: ZStr<'_>) -> String {
    String::from_utf8(z.to_bytes().to_vec()).unwrap()
}

fn drive(
    plan: &MountPlan<'_>,
    answer: fn(&str) -> Result<(), Errno>,
) -> (Vec<String>, Result<(), MountError>) {
    let mut seen = Vec::new();
    let (mut setup, mut command) = MountSetup::start(plan);
    loop {
        match command {
            MountCommand::Perform(op) => {
                let name = name(op);
                let reply = answer(&name);
                seen.push(name);
                command = setup.resume(plan, reply);
            }
            MountCommand::Done => return (seen, Ok(())),
            MountCommand::Failed(error) => return (seen, Err(error)),
        }
    }
}

fn all_well(_op: &str) -> Result<(), Errno> {
    Ok(())
}

#[test]
fn read_only_bind_is_read_only_before_it_is_attached() {
    let bind = MountEntry::Bind(BindMount {
        source: BindMountSource::Path(z("/usr\0")),
        dst_rel: z("usr\0"),
        src_is_dir: true,
        read_only: true,
    });
    assert_eq!(
        names(bind, 0),
        vec![
            "mkdirs usr",
            "open_tree Cwd /usr 0x88001",
            "setattr Tree '' 0x9000 1 0x0",
            "attach Tree usr",
            "release",
        ]
    );
}

#[test]
fn file_bind_gets_its_parents_and_a_file() {
    let bind = MountEntry::Bind(BindMount {
        source: BindMountSource::Path(z("/etc/hosts\0")),
        dst_rel: z("etc/deep/hosts\0"),
        src_is_dir: false,
        read_only: true,
    });
    assert_eq!(
        names(bind, 0),
        vec![
            "mkdirs etc/deep",
            "touch etc/deep/hosts",
            "open_tree Cwd /etc/hosts 0x88001",
            "setattr Tree '' 0x1000 1 0x0",
            "attach Tree etc/deep/hosts",
            "release",
        ]
    );
    let top = MountEntry::Bind(BindMount {
        source: BindMountSource::Path(z("/x\0")),
        dst_rel: z("x\0"),
        src_is_dir: false,
        read_only: false,
    });
    assert_eq!(
        names(top, 0),
        vec!["touch x", "open_tree Cwd /x 0x88001", "attach Tree x", "release"]
    );
}

#[test]
fn prepared_bind_is_cloned_from_a_private_attachment() {
    let prepared = PreparedBindMount::clone_from_fd(Ok(42)).unwrap();
    assert_eq!(prepared.fd(), 42);
    let bind = MountEntry::Bind(BindMount {
        source: BindMountSource::Prepared(&prepared),
        dst_rel: z("source\0"),
        src_is_dir: true,
        read_only: true,
    });
    assert_eq!(
        names(bind, 0),
        vec![
            "mkdirs source",
            "setattr Prepared(42) '' 0x9000 0 0x40000",
            "setattr Prepared(42) '' 0x9000 1 0x0",
            "attach Prepared(42) source",
            "open_tree Root source 0x88001",
            "umount /tmp/pnut-newroot/source 2",
            "setattr Tree '' 0x9000 1 0x0",
            "attach Tree source",
            "release",
        ]
    );
}

#[test]
fn cloning_a_source_asks_for_the_descriptor_itself() {
    assert_eq!(
        PreparedBindMount::clone_flags(false),
        libc::OPEN_TREE_CLONE | libc::OPEN_TREE_CLOEXEC | libc::AT_EMPTY_PATH as u32
    );
    assert_eq!(
        PreparedBindMount::clone_flags(true),
        libc::OPEN_TREE_CLONE
            | libc::OPEN_TREE_CLOEXEC
            | libc::AT_EMPTY_PATH as u32
            | libc::AT_RECURSIVE as u32
    );
    let error = PreparedBindMount::clone_from_fd(Err(Errno(libc::EBADF))).unwrap_err();
    assert_eq!(error.errno(), libc::EBADF);
}

#[test]
fn filesystems_get_their_options() {
    let tmpfs = MountEntry::Tmpfs(TmpfsMount {
        dst_rel: z("tmp\0"),
        read_only: true,
        size_bytes: Some(64 * 1024 * 1024),
        mode: Some(0o1777),
    });
    assert_eq!(
        names(tmpfs, 0),
        vec![
            "mkdirs tmp",
            "fsopen tmpfs",
            "set size=67108864",
            "set mode=1777",
            "create",
            "fsmount",
            "setattr Tree '' 0x1000 1 0x0",
            "attach Tree tmp",
            "release",
        ]
    );
    for (hidepid, shown) in [
        (HidePid::Visible, "set hidepid=0"),
        (HidePid::Hidden, "set hidepid=1"),
        (HidePid::Invisible, "set hidepid=invisible"),
    ] {
        let proc_mount = MountEntry::Proc(ProcMount {
            dst_rel: z("proc\0"),
            subset: Some(ProcSubset::Pid),
            hidepid: Some(hidepid),
        });
        assert_eq!(
            names(proc_mount, 0),
            vec![
                "mkdirs proc",
                "fsopen proc",
                "set subset=pid",
                shown,
                "create",
                "fsmount",
                "attach Tree proc",
                "release",
            ]
        );
    }
    let mqueue = MountEntry::Mqueue(MqueueMount { dst_rel: z("dev/mqueue\0") });
    assert_eq!(
        names(mqueue, 0),
        vec![
            "mkdirs dev/mqueue",
            "fsopen mqueue",
            "create",
            "fsmount",
            "attach Tree dev/mqueue",
            "release",
        ]
    );
}

fn two_files() -> [MountEntry<'static>; 3] {
    [
        MountEntry::File(FileMount {
            dst_rel: z("etc/hostname\0"),
            content: b"test",
            read_only: true,
        }),
        MountEntry::Mqueue(MqueueMount { dst_rel: z("mq\0") }),
        MountEntry::File(FileMount {
            dst_rel: z("motd\0"),
            content: b"",
            read_only: false,
        }),
    ]
}

#[test]
fn whole_setup_ends_in_the_new_root_with_nothing_staged() {
    let entries = two_files();
    let (seen, result) = drive(&MountPlan { entries: &entries }, all_well);
    assert_eq!(result, Ok(()));
    assert_eq!(
        seen,
        vec![
            "setattr Cwd '/' 0x8000 0 0x40000",
            "mkdir /tmp/pnut-newroot 755",
            "fsopen tmpfs",
            "create",
            "fsmount",
            "attach at /tmp/pnut-newroot",
            "open Cwd /tmp/pnut-newroot Root",
            "release",
            "mkdirs .old_root",
            "mkdirs .pnut-content",
            "open Root .pnut-content Staging",
            "dev",
            "write content-0 4",
            "mkdirs etc",
            "touch etc/hostname",
            "open_tree Staging content-0 0x80001",
            "setattr Tree '' 0x1000 1 0x0",
            "attach Tree etc/hostname",
            "release",
            "mkdirs mq",
            "fsopen mqueue",
            "create",
            "fsmount",
            "attach Tree mq",
            "release",
            "write content-1 0",
            "touch motd",
            "open_tree Staging content-1 0x80001",
            "attach Tree motd",
            "release",
            "fchdir",
            "pivot . .",
            "umount . 2",
            "unlink Staging content-0 0x0 true",
            "unlink Staging content-1 0x0 true",
            "unlink Cwd /.old_root 0x200 false",
            "unlink Cwd /.pnut-content 0x200 false",
            "chdir /",
        ]
    );
}

#[test]
fn ended_setup_stays_ended() {
    let plan = MountPlan { entries: &[] };
    let (mut setup, mut command) = MountSetup::start(&plan);
    while let MountCommand::Perform(_) = command {
        command = setup.resume(&plan, Ok(()));
    }
    for reply in [Ok(()), Err(Errno(libc::EIO))] {
        assert!(matches!(setup.resume(&plan, reply), MountCommand::Done));
    }
    let (mut setup, _) = MountSetup::start(&plan);
    for reply in [Err(Errno(libc::EPERM)), Ok(()), Err(Errno(libc::EIO))] {
        match setup.resume(&plan, reply) {
            MountCommand::Failed(error) => {
                assert_eq!(error, MountError::new(Errno(libc::EPERM), 0));
            }
            other => panic!("expected a failure, got: {other:?}"),
        }
    }
}

#[test]
fn some_failures_do_not_matter() {
    fn tolerable(op: &str) -> Result<(), Errno> {
        if op.starts_with("mkdir ") {
            Err(Errno(libc::EEXIST))
        } else if op.starts_with("unlink Cwd") {
            Err(Errno(libc::ENOTEMPTY))
        } else {
            Ok(())
        }
    }
    let (_, result) = drive(&MountPlan { entries: &[] }, tolerable);
    assert_eq!(result, Ok(()));
}

#[test]
fn failures_are_marked_by_their_part() {
    fn root(op: &str) -> Result<(), Errno> {
        if op.starts_with("mkdir ") { Err(Errno(libc::EACCES)) } else { Ok(()) }
    }
    fn dev(op: &str) -> Result<(), Errno> {
        if op == "dev" { Err(Errno(libc::EPERM)) } else { Ok(()) }
    }
    fn entry(op: &str) -> Result<(), Errno> {
        if op == "attach Tree mq" { Err(Errno(libc::EBUSY)) } else { Ok(()) }
    }
    fn pivot(op: &str) -> Result<(), Errno> {
        if op == "pivot . ." { Err(Errno(libc::EINVAL)) } else { Ok(()) }
    }
    fn cleanup(op: &str) -> Result<(), Errno> {
        if op.starts_with("unlink Staging content-1") { Err(Errno(libc::EROFS)) } else { Ok(()) }
    }
    let entries = two_files();
    let plan = MountPlan { entries: &entries };
    for (answer, errno, detail) in [
        (root as fn(&str) -> Result<(), Errno>, libc::EACCES, 0),
        (dev, libc::EPERM, 2000),
        (entry, libc::EBUSY, 1001),
        (pivot, libc::EINVAL, 3000),
        (cleanup, libc::EROFS, 3000),
    ] {
        let (seen, result) = drive(&plan, answer);
        assert_eq!(result, Err(MountError::new(Errno(errno), detail)));
        assert!(answer(seen.last().unwrap()).is_err());
    }
}

#[test]
fn overlong_paths_are_refused() {
    let mut long = vec![b'a'; 4100];
    long[4097] = b'/';
    long.push(0);
    let dst = ZStr::from_bytes_with_nul(&long).unwrap();
    let entries = [MountEntry::File(FileMount { dst_rel: dst, content: b"", read_only: false })];
    let plan = MountPlan { entries: &entries };
    let (mut setup, mut command) = MountSetup::start(&plan);
    let mut last = None;
    while let MountCommand::Perform(op) = command {
        last = Some(op);
        command = setup.resume(&plan, Ok(()));
    }
    assert!(matches!(last, Some(Op::WriteFile { .. })));
    match command {
        MountCommand::Failed(error) => {
            assert_eq!(error, MountError::new(Errno(libc::ENAMETOOLONG), 1000));
        }
        other => panic!("expected a failure, got: {other:?}"),
    }
}

#[test]
fn prepared_bind_needs_room_for_the_whole_path() {
    let prepared = PreparedBindMount::clone_from_fd(Ok(3)).unwrap();
    for (len, fits) in [(4077, true), (4078, false)] {
        let mut long = vec![b'a'; len];
        long.push(0);
        let dst = ZStr::from_bytes_with_nul(&long).unwrap();
        let list = process_mount_entry(
            &MountEntry::Bind(BindMount {
                source: BindMountSource::Prepared(&prepared),
                dst_rel: dst,
                src_is_dir: true,
                read_only: false,
            }),
            0,
        );
        let refused = (0..list.len()).any(|i| matches!(list.get(i), Op::Refuse(_)));
        assert_eq!(refused, !fits);
        let mut buf = [0u8; MAX_PATH_BYTES];
        assert_eq!(root_absolute_path(dst, &mut buf).is_ok(), fits);
    }
}

#[test]
fn composed_texts_are_exact() {
    let mut buf = [0u8; MAX_PATH_BYTES];
    assert_eq!(
        root_absolute_path(z("a/b\0"), &mut buf).unwrap().to_bytes(),
        b"/tmp/pnut-newroot/a/b"
    );
    let mut buf = [0u8; 64];
    assert_eq!(staging_name_cstr(120, &mut buf).unwrap().to_bytes(), b"content-120");
    let mut buf = [0u8; 32];
    assert_eq!(decimal_cstr(u64::MAX, &mut buf).unwrap().to_bytes(), b"18446744073709551615");
    let mut buf = [0u8; 16];
    assert_eq!(octal_cstr(0o644, &mut buf).unwrap().to_bytes(), b"644");
    assert_eq!(find_last_slash(z("a/b/c\0")), Some(3));
    assert_eq!(find_last_slash(z("abc\0")), None);
    assert_eq!(text(FsType::Mqueue.name()), "mqueue");
    assert_eq!(text(FsKey::HidePid.name()), "hidepid");
    let mut buf = [0u8; 32];
    assert_eq!(text(FsValue::Octal(8).render(&mut buf).unwrap()), "10");
    assert!(matches!(Handle::Prepared(1), Handle::Prepared(_)));
}

#[test]
fn failed_creation_is_told_with_its_log() {
    let report = report_fsconfig_failure(
        FsConfigCreateError { errno: Errno(libc::EINVAL), log_len: 5 },
        b"e bad.....",
        b"mount",
    );
    assert_eq!(report.errno, Errno(libc::EINVAL));
    assert_eq!(report.parts.concat(), b"pnut-child: mount fsconfig failed\ne bad\n");
    let report = report_fsconfig_failure(
        FsConfigCreateError { errno: Errno(libc::EPERM), log_len: 0 },
        b"",
        b"mount",
    );
    assert_eq!(report.parts.concat(), b"pnut-child: mount fsconfig failed\n");
}
