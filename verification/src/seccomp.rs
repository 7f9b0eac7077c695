//! Raw seccomp filter installation.

use vstd::prelude::*;

use crate::child::SeccompSpec;
use crate::error::Errno;
use crate::sys::SECCOMP_SET_MODE_FILTER;

verus! {

/// Failure returned when the kernel rejects a seccomp filter installation.
///
/// The errno is captured by value immediately after the system call. It does not
/// borrow the filter program or expose kernel-owned state.
#[derive(Clone, Copy, Debug, PartialEq, Eq, Structural)]
pub struct SeccompInstallError {
    errno: i32,
}

impl SeccompInstallError {
    /// The Linux errno reported by the failed installation.
    pub closed spec fn spec_errno(self) -> i32 {
        self.errno
    }

    /// The Linux errno reported by the failed installation.
    #[must_use]
    pub fn errno(self) -> (r: i32)
        ensures
            r == self.spec_errno(),
    {
        self.errno
    }
}

/// The arguments of `seccomp(2)`.
#[derive(Clone, Copy, Debug)]
pub struct SeccompCall<'a> {
    pub operation: u32,
    pub flags: u32,
    pub len: u16,
    pub filter: &'a [libc::sock_filter],
}

/// The call that installs a filter for the calling thread.
pub fn install_call<'a>(request: &SeccompSpec<'a>) -> (r: SeccompCall<'a>)
    ensures
        r.operation == SECCOMP_SET_MODE_FILTER,
        r.flags == request.flags,
        r.len == request.program.len,
        r.filter == request.program.filter,
{
    SeccompCall {
        operation: SECCOMP_SET_MODE_FILTER,
        flags: request.flags,
        len: request.program.len,
        filter: request.program.filter,
    }
}

/// Takes what the kernel answered to [`install_call`]: zero, or anything else
/// and the errno.
///
/// Installing a filter is irreversible for the calling thread, and may affect
/// other threads when the flags ask for synchronization. Callers are responsible
/// for establishing `no_new_privs` or the needed privileges beforehand.
pub fn install_seccomp(ret: i64, errno: Errno) -> (r: Result<(), SeccompInstallError>)
    ensures
        r is Ok <==> ret == 0,
        r matches Err(error) ==> error.spec_errno() == errno.0,
{
    if ret == 0 {
        Ok(())
    } else {
        Err(SeccompInstallError { errno: errno.0 })
    }
}

/// The kernel is asked to install the very filter of the request, with its flags; it
/// has done so exactly if it returned zero, and its error is passed on otherwise.
pub proof fn law_installation(
    request: SeccompSpec,
    call: SeccompCall,
    ret: i64,
    errno: Errno,
    r: Result<(), SeccompInstallError>,
)
    requires
        call_ensures(install_call, (&request,), call),
        call_ensures(install_seccomp, (ret, errno), r),
    ensures
        call.operation == SECCOMP_SET_MODE_FILTER,
        call.flags == request.flags,
        call.len == request.program.len,
        call.filter@ == request.program.filter@,
        r is Ok <==> ret == 0,
        r matches Err(error) ==> error.spec_errno() == errno.0,
{
}

} // verus!
