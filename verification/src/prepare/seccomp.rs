//! The seccomp filter.

use vstd::prelude::*;

use crate::child::{FilterProgram, SeccompSpec};
use crate::sys::SECCOMP_FILTER_FLAG_TSYNC;

verus! {

/// The instructions that a compiled policy consists of.
pub uninterp spec fn bpf_instructions(program: kafel::BpfProgram) -> Seq<libc::sock_filter>;

/// `kafel::BpfProgram::instructions`: the instructions that the program consists
/// of. It gives the same ones every time; what they are is decided when the
/// policy is compiled.
pub assume_specification[ kafel::BpfProgram::instructions ](program: &kafel::BpfProgram) -> (r: &[
    libc::sock_filter
])
    ensures
        r@ == bpf_instructions(*program),
;

/// Whether `r` installs the instructions, for all threads. The kernel is told
/// the low sixteen bits of their number.
pub open spec fn is_filter(instructions: Seq<libc::sock_filter>, r: SeccompSpec) -> bool {
    &&& r.program.filter@ == instructions
    &&& r.program.len == instructions.len() as u16
    &&& r.flags == SECCOMP_FILTER_FLAG_TSYNC
}

/// The filter that consists of the given instructions.
pub fn filter<'a>(instructions: &'a [libc::sock_filter]) -> (r: SeccompSpec<'a>)
    ensures
        is_filter(instructions@, r),
{
    let len: usize = instructions.len();
    SeccompSpec {
        program: FilterProgram {
            len: #[verifier::truncate]
            (len as u16),
            filter: instructions,
        },
        flags: SECCOMP_FILTER_FLAG_TSYNC,
    }
}

/// Prepares the filter of a compiled policy.
pub fn prepare_seccomp<'a>(program: &'a kafel::BpfProgram) -> (r: SeccompSpec<'a>)
    ensures
        is_filter(bpf_instructions(*program), r),
{
    filter(program.instructions())
}

/// The filter consists of the very instructions of the policy, the low sixteen bits of
/// their number are told, and it is installed for all threads.
pub proof fn law_filter_is_the_policy(program: kafel::BpfProgram, r: SeccompSpec)
    requires
        call_ensures(prepare_seccomp, (&program,), r),
    ensures
        r.program.filter@ == bpf_instructions(program),
        r.program.len == bpf_instructions(program).len() % 65536,
        r.flags == SECCOMP_FILTER_FLAG_TSYNC,
{
    let n: usize = r.program.filter.len();
    assert(n as u16 == n % 65536) by (bit_vector);
}

} // verus!
