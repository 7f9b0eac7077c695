use pnut::bytes::ByteOrder;
use pnut::io::{CallResult, Transfer, TransferState};
use pnut::net::loopback_request;
use pnut::report::Reporter;
use pnut::text::{append_decimal, append_signed, decimal_digits, octal_digits};
use pnut::{ChildFailure, Errno, Stage, ZStr};

#[test]
fn stages_keep_their_numbers() {
    for number in 1..=20u16 {
        let stage = Stage::from_u16(number).expect("a stage");
        assert_eq!(stage.to_u16(), number);
    }
    assert_eq!(Stage::from_u16(0), None);
    assert_eq!(Stage::from_u16(21), None);
    assert_eq!(Stage::from_u16(5), Some(Stage::Mount));
    assert_eq!(Stage::from_u16(20), Some(Stage::Completion));
}

#[test]
fn failure_record_has_a_fixed_layout() {
    let failure = ChildFailure::new(Stage::Cwd, -2, 3, 126);
    assert_eq!(
        failure.to_bytes(ByteOrder::Little),
        [1, 0, 18, 0, 0xfe, 0xff, 0xff, 0xff, 3, 0, 0, 0, 126, 0, 0, 0]
    );
    assert_eq!(
        failure.to_bytes(ByteOrder::Big),
        [0, 1, 0, 18, 0xff, 0xff, 0xff, 0xfe, 0, 0, 0, 3, 0, 0, 0, 126]
    );
    for order in [ByteOrder::Little, ByteOrder::Big] {
        assert_eq!(ChildFailure::from_bytes(&failure.to_bytes(order), order), failure);
    }
    assert_eq!(core::mem::size_of::<ChildFailure>(), 16);
}

#[test]
fn failed_execution_is_told_by_its_error() {
    let path = ZStr::from_bytes_with_nul(b"/bin/x\0").unwrap();
    let reporter = Reporter::new(None);
    for (errno, prefix) in [
        (libc::ENOENT, "pnut: command not found: "),
        (libc::EACCES, "pnut: permission denied: "),
        (libc::ENOEXEC, "pnut: exec failed: "),
    ] {
        let report = reporter.report_exec_errno(Errno(errno), 126, path);
        assert_eq!(report.fallback, [prefix.as_bytes(), b"/bin/x", b"\n"]);
        assert_eq!(report.failure.errno, errno);
    }
    let report = reporter.report_logic(Stage::SyncWait, 4, 126);
    assert_eq!(report.fallback[0], b"pnut: parent failed during setup\n");
    assert_eq!(report.failure, ChildFailure::new(Stage::SyncWait, 0, 4, 126));
}

#[test]
fn c_strings_hold_no_nul() {
    assert!(ZStr::from_bytes_with_nul(b"").is_none());
    assert!(ZStr::from_bytes_with_nul(b"abc").is_none());
    assert!(ZStr::from_bytes_with_nul(b"a\0c\0").is_none());
    let z = ZStr::from_bytes_with_nul(b"abc\0").unwrap();
    assert_eq!(z.to_bytes(), b"abc");
    assert_eq!(z.to_bytes_with_nul(), b"abc\0");
}

#[test]
fn transfer_goes_on_after_interruptions_and_short_calls() {
    let ok = |ret: isize| CallResult { ret, errno: Errno(0) };
    let interrupted = CallResult { ret: -1, errno: Errno(libc::EINTR) };
    let mut transfer = Transfer::start(10);
    assert_eq!(transfer.state(), TransferState::Moving { done: 0 });
    transfer.resume(ok(4));
    assert_eq!(transfer.state(), TransferState::Moving { done: 4 });
    transfer.resume(interrupted);
    assert_eq!(transfer.state(), TransferState::Moving { done: 4 });
    transfer.resume(ok(6));
    assert_eq!(transfer.state(), TransferState::Done);
    assert_eq!(Transfer::start(0).state(), TransferState::Done);
}

#[test]
fn transfer_fails_on_errors_and_at_the_end() {
    let mut transfer = Transfer::start(3);
    transfer.resume(CallResult { ret: 0, errno: Errno(0) });
    assert_eq!(transfer.state(), TransferState::Failed(Errno(libc::EPIPE)));
    let mut transfer = Transfer::start(3);
    transfer.resume(CallResult { ret: -1, errno: Errno(libc::EIO) });
    assert_eq!(transfer.state(), TransferState::Failed(Errno(libc::EIO)));
}

#[test]
fn loopback_is_named_and_brought_up() {
    let request = loopback_request();
    assert_eq!(request.name, *b"lo\0\0\0\0\0\0\0\0\0\0\0\0\0\0");
    assert_eq!(request.flags, (libc::IFF_UP | libc::IFF_RUNNING) as i16);
}

#[test]
fn numerals_have_no_leading_zeros() {
    let mut buf = [0u8; 32];
    for (value, text) in [
        (0u64, "0"),
        (7, "7"),
        (10, "10"),
        (4096, "4096"),
        (u64::MAX, "18446744073709551615"),
    ] {
        let len = decimal_digits(value, &mut buf);
        assert_eq!(&buf[..len], text.as_bytes());
        let mut out = String::from("n=");
        append_decimal(&mut out, value);
        assert_eq!(out, format!("n={text}"));
    }
    for (value, text) in [
        (0u32, "0"),
        (0o755, "755"),
        (0o1777, "1777"),
        (u32::MAX, "37777777777"),
    ] {
        let len = octal_digits(value, &mut buf);
        assert_eq!(&buf[..len], text.as_bytes());
    }
    let mut out = String::new();
    append_signed(&mut out, i32::MIN);
    assert_eq!(out, "-2147483648");
}

#[test]
fn system_call_results_are_taken_apart() {
    assert_eq!(pnut::error::opened(0, Errno(5)), Ok(0));
    assert_eq!(pnut::error::opened(-1, Errno(5)), Err(Errno(5)));
    assert_eq!(pnut::error::succeeded(0, Errno(5)), Ok(()));
    assert_eq!(pnut::error::succeeded(1, Errno(5)), Err(Errno(5)));
}
