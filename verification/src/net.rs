//! Network setup helpers.

use vstd::prelude::*;

use crate::sys::{IFF_RUNNING, IFF_UP};

verus! {

/// Bytes of an interface name, with its NUL.
pub const IFNAMSIZ: usize = 16;

/// Flags of an interface that is up.
pub const UP_AND_RUNNING: i16 = IFF_UP | IFF_RUNNING;

/// The request that sets the flags of an interface.
#[derive(Clone, Copy, Debug)]
pub struct FlagsRequest {
    pub name: [u8; IFNAMSIZ],
    pub flags: i16,
}

/// The request that brings up the loopback interface: its name, padded with
/// NULs, and the flags of an interface that is up.
pub fn loopback_request() -> (r: FlagsRequest)
    ensures
        r.name@ == vstd::utf8::encode_utf8("lo"@) + Seq::new(14, |i: int| 0u8),
        r.flags == UP_AND_RUNNING,
{
    let mut name: [u8; IFNAMSIZ] = [0u8; IFNAMSIZ];
    let lo: &[u8] = "lo".as_bytes();
    proof {
        reveal_strlit("lo");
        crate::mount::path::lemma_plain_text("lo"@);
    }
    crate::text::copy_at(&mut name, 0, lo);
    assert(name@ =~= vstd::utf8::encode_utf8("lo"@) + Seq::new(14, |i: int| 0u8));
    FlagsRequest { name, flags: UP_AND_RUNNING }
}

/// The request names the interface `lo`, as a C string that fills its field with
/// NULs, and says that it is up and running and nothing else.
pub proof fn law_loopback_is_named_and_brought_up(r: FlagsRequest, i: int)
    requires
        call_ensures(loopback_request, (), r),
    ensures
        r.name@[0] == 'l' as u8 && r.name@[1] == 'o' as u8,
        2 <= i < IFNAMSIZ ==> r.name@[i] == 0,
        r.flags == 0x41,
{
    reveal_strlit("lo");
    crate::mount::path::lemma_plain_text("lo"@);
    assert(UP_AND_RUNNING == 0x41) by (bit_vector);
}

} // verus!
