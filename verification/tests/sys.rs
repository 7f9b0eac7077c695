use pnut::sys;

#[test]
fn error_numbers_are_those_of_the_platform() {
    assert_eq!(sys::ENOENT, libc::ENOENT);
    assert_eq!(sys::ESRCH, libc::ESRCH);
    assert_eq!(sys::EINTR, libc::EINTR);
    assert_eq!(sys::EBADF, libc::EBADF);
    assert_eq!(sys::EACCES, libc::EACCES);
    assert_eq!(sys::EEXIST, libc::EEXIST);
    assert_eq!(sys::EPIPE, libc::EPIPE);
    assert_eq!(sys::ENAMETOOLONG, libc::ENAMETOOLONG);
}

#[test]
fn mount_flags_are_those_of_the_platform() {
    assert_eq!(sys::AT_EMPTY_PATH, libc::AT_EMPTY_PATH as u32);
    assert_eq!(sys::AT_RECURSIVE, libc::AT_RECURSIVE as u32);
    assert_eq!(sys::AT_REMOVEDIR, libc::AT_REMOVEDIR as u32);
    assert_eq!(sys::OPEN_TREE_CLONE, libc::OPEN_TREE_CLONE as u32);
    assert_eq!(sys::OPEN_TREE_CLOEXEC, libc::OPEN_TREE_CLOEXEC as u32);
    assert_eq!(sys::MOUNT_ATTR_RDONLY, libc::MOUNT_ATTR_RDONLY as u64);
    assert_eq!(sys::MS_PRIVATE, libc::MS_PRIVATE as u64);
    assert_eq!(sys::MNT_DETACH, libc::MNT_DETACH as u32);
}

#[test]
fn interface_and_seccomp_flags_are_those_of_the_platform() {
    assert_eq!(sys::IFF_UP as i32, libc::IFF_UP);
    assert_eq!(sys::IFF_RUNNING as i32, libc::IFF_RUNNING);
    assert_eq!(sys::SECCOMP_SET_MODE_FILTER, libc::SECCOMP_SET_MODE_FILTER as u32);
    assert_eq!(sys::SECCOMP_FILTER_FLAG_TSYNC, libc::SECCOMP_FILTER_FLAG_TSYNC as u32);
    assert_eq!(sys::PR_MDWE_REFUSE_EXEC_GAIN, libc::PR_MDWE_REFUSE_EXEC_GAIN as u64);
}

#[test]
fn signals_are_those_of_the_platform() {
    assert_eq!(sys::SIGHUP, libc::SIGHUP);
    assert_eq!(sys::SIGINT, libc::SIGINT);
    assert_eq!(sys::SIGQUIT, libc::SIGQUIT);
    assert_eq!(sys::SIGKILL, libc::SIGKILL);
    assert_eq!(sys::SIGUSR1, libc::SIGUSR1);
    assert_eq!(sys::SIGUSR2, libc::SIGUSR2);
    assert_eq!(sys::SIGTERM, libc::SIGTERM);
    assert_eq!(sys::SIGCHLD, libc::SIGCHLD);
}

#[test]
fn resources_are_those_of_the_platform() {
    assert_eq!(sys::RLIMIT_CPU, libc::RLIMIT_CPU as i32);
    assert_eq!(sys::RLIMIT_FSIZE, libc::RLIMIT_FSIZE as i32);
    assert_eq!(sys::RLIMIT_STACK, libc::RLIMIT_STACK as i32);
    assert_eq!(sys::RLIMIT_CORE, libc::RLIMIT_CORE as i32);
    assert_eq!(sys::RLIMIT_NPROC, libc::RLIMIT_NPROC as i32);
    assert_eq!(sys::RLIMIT_NOFILE, libc::RLIMIT_NOFILE as i32);
    assert_eq!(sys::RLIMIT_AS, libc::RLIMIT_AS as i32);
}

#[test]
fn clone_flags_are_those_of_the_platform() {
    assert_eq!(sys::CLONE_NEWTIME, libc::CLONE_NEWTIME as u64);
    assert_eq!(sys::CLONE_PIDFD, libc::CLONE_PIDFD as u64);
    assert_eq!(sys::CLONE_NEWNS, libc::CLONE_NEWNS as u64);
    assert_eq!(sys::CLONE_NEWCGROUP, libc::CLONE_NEWCGROUP as u64);
    assert_eq!(sys::CLONE_NEWUTS, libc::CLONE_NEWUTS as u64);
    assert_eq!(sys::CLONE_NEWIPC, libc::CLONE_NEWIPC as u64);
    assert_eq!(sys::CLONE_NEWUSER, libc::CLONE_NEWUSER as u64);
    assert_eq!(sys::CLONE_NEWPID, libc::CLONE_NEWPID as u64);
    assert_eq!(sys::CLONE_NEWNET, libc::CLONE_NEWNET as u64);
}
