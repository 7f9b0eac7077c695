//! Resource limits.

use vstd::prelude::*;

use crate::child::{Rlimit, RlimitEntry, RlimitSpec};
use crate::config::ResourceLimits;
use crate::error::BuildError;
use crate::sys::{
    RLIMIT_AS, RLIMIT_CORE, RLIMIT_CPU, RLIMIT_FSIZE, RLIMIT_NOFILE, RLIMIT_NPROC, RLIMIT_STACK,
};

verus! {

/// Bytes of a mebibyte.
pub const MIB: u64 = 1024 * 1024;

/// The limit of `value` on `resource`, soft and hard at once.
pub open spec fn rlimit(resource: i32, value: u64) -> RlimitEntry {
    RlimitEntry { resource, limit: Rlimit { rlim_cur: value, rlim_max: value } }
}

/// `value` mebibytes in bytes, or as many bytes as can be counted.
pub open spec fn mebibytes(value: u64) -> u64 {
    if value * MIB <= u64::MAX {
        (value * MIB) as u64
    } else {
        u64::MAX
    }
}

/// A limit in the unit of the resource, if there is one.
pub open spec fn plain_limit(resource: i32, value: Option<u64>) -> Seq<RlimitEntry> {
    match value {
        Some(v) => seq![rlimit(resource, v)],
        None => seq![],
    }
}

/// A limit in mebibytes, if there is one.
pub open spec fn mebibyte_limit(resource: i32, value: Option<u64>) -> Seq<RlimitEntry> {
    match value {
        Some(v) => seq![rlimit(resource, mebibytes(v))],
        None => seq![],
    }
}

fn make_rlimit(resource: i32, value: u64) -> (r: RlimitEntry)
    ensures
        r == rlimit(resource, value),
{
    RlimitEntry { resource, limit: Rlimit { rlim_cur: value, rlim_max: value } }
}

fn saturating_mebibytes(value: u64) -> (r: u64)
    ensures
        r == mebibytes(value),
{
    match value.checked_mul(MIB) {
        Some(bytes) => bytes,
        None => u64::MAX,
    }
}

fn push_plain(entries: &mut Vec<RlimitEntry>, resource: i32, value: Option<u64>)
    ensures
        final(entries)@ == old(entries)@ + plain_limit(resource, value),
{
    let ghost before = entries@;
    match value {
        Some(v) => entries.push(make_rlimit(resource, v)),
        None => {},
    }
    assert(entries@ =~= before + plain_limit(resource, value));
}

fn push_mebibytes(entries: &mut Vec<RlimitEntry>, resource: i32, value: Option<u64>)
    ensures
        final(entries)@ == old(entries)@ + mebibyte_limit(resource, value),
{
    let ghost before = entries@;
    match value {
        Some(v) => entries.push(make_rlimit(resource, saturating_mebibytes(v))),
        None => {},
    }
    assert(entries@ =~= before + mebibyte_limit(resource, value));
}

impl ResourceLimits {
    /// The limits that are asked for, in a fixed order.
    pub open spec fn entries(self) -> Seq<RlimitEntry> {
        plain_limit(RLIMIT_NOFILE, self.nofile) + plain_limit(RLIMIT_NPROC, self.nproc)
            + mebibyte_limit(RLIMIT_FSIZE, self.fsize_mb) + mebibyte_limit(
            RLIMIT_STACK,
            self.stack_mb,
        ) + mebibyte_limit(RLIMIT_AS, self.as_mb) + mebibyte_limit(RLIMIT_CORE, self.core_mb)
            + plain_limit(RLIMIT_CPU, self.cpu_seconds)
    }

    /// Prepares the limits. Nothing can be wrong with them.
    pub fn prepare<'a>(&self, arena: &'a bumpalo::Bump) -> (r: Result<RlimitSpec<'a>, BuildError>)
        ensures
            r matches Ok(limits) && limits.limits@ == self.entries(),
    {
        let mut entries: Vec<RlimitEntry> = Vec::new();
        push_plain(&mut entries, RLIMIT_NOFILE, self.nofile);
        push_plain(&mut entries, RLIMIT_NPROC, self.nproc);
        push_mebibytes(&mut entries, RLIMIT_FSIZE, self.fsize_mb);
        push_mebibytes(&mut entries, RLIMIT_STACK, self.stack_mb);
        push_mebibytes(&mut entries, RLIMIT_AS, self.as_mb);
        push_mebibytes(&mut entries, RLIMIT_CORE, self.core_mb);
        push_plain(&mut entries, RLIMIT_CPU, self.cpu_seconds);
        assert(entries@ =~= self.entries());
        Ok(RlimitSpec { limits: crate::arena::alloc_items(arena, entries) })
    }
}

/// Whether the limit on `resource` is `value`, soft and hard: there is one entry
/// for the resource, and it says so.
pub open spec fn is_limited(limits: Seq<RlimitEntry>, resource: i32, value: u64) -> bool {
    exists|i: int| #[trigger] is_limited_at(limits, resource, value, i)
}

/// Whether entry number `i` is the only one for `resource`, and limits it to
/// `value`.
pub open spec fn is_limited_at(
    limits: Seq<RlimitEntry>,
    resource: i32,
    value: u64,
    i: int,
) -> bool {
    &&& 0 <= i < limits.len()
    &&& limits[i].resource == resource
    &&& limits[i].limit.rlim_cur == value
    &&& limits[i].limit.rlim_max == value
    &&& forall|j: int|
        0 <= j < limits.len() && j != i ==> (#[trigger] limits[j]).resource != resource
}

/// Every limit that is asked for is set on its own resource, soft and hard, to
/// what was asked: sizes in mebibytes, everything else as it is.
pub proof fn law_limits_are_those_asked_for(
    config: ResourceLimits,
    arena: &bumpalo::Bump,
    r: Result<RlimitSpec, BuildError>,
)
    requires
        call_ensures(ResourceLimits::prepare, (&config, arena), r),
    ensures
        r matches Ok(set) && {
            &&& config.nofile matches Some(v) ==> is_limited(set.limits@, RLIMIT_NOFILE, v)
            &&& config.nproc matches Some(v) ==> is_limited(set.limits@, RLIMIT_NPROC, v)
            &&& config.cpu_seconds matches Some(v) ==> is_limited(set.limits@, RLIMIT_CPU, v)
            &&& config.fsize_mb matches Some(v) ==> is_limited(
                set.limits@,
                RLIMIT_FSIZE,
                if v * 1048576 <= u64::MAX {
                    (v * 1048576) as u64
                } else {
                    u64::MAX
                },
            )
            &&& config.stack_mb matches Some(v) ==> is_limited(
                set.limits@,
                RLIMIT_STACK,
                if v * 1048576 <= u64::MAX {
                    (v * 1048576) as u64
                } else {
                    u64::MAX
                },
            )
            &&& config.as_mb matches Some(v) ==> is_limited(
                set.limits@,
                RLIMIT_AS,
                if v * 1048576 <= u64::MAX {
                    (v * 1048576) as u64
                } else {
                    u64::MAX
                },
            )
            &&& config.core_mb matches Some(v) ==> is_limited(
                set.limits@,
                RLIMIT_CORE,
                if v * 1048576 <= u64::MAX {
                    (v * 1048576) as u64
                } else {
                    u64::MAX
                },
            )
        },
{
    let none = Seq::<RlimitEntry>::empty();
    assert forall|resource: i32| #[trigger] limited_to(none, resource, None) by {
        reveal(limited_to);
    }
    let l0 = none + plain_limit(RLIMIT_NOFILE, config.nofile);
    lemma_limit_added(none, RLIMIT_NOFILE, config.nofile);
    let l1 = l0 + plain_limit(RLIMIT_NPROC, config.nproc);
    lemma_limit_added(l0, RLIMIT_NPROC, config.nproc);
    let l2 = l1 + plain_limit(RLIMIT_FSIZE, in_bytes(config.fsize_mb));
    assert(mebibyte_limit(RLIMIT_FSIZE, config.fsize_mb) =~= plain_limit(
        RLIMIT_FSIZE,
        in_bytes(config.fsize_mb),
    ));
    lemma_limit_added(l1, RLIMIT_FSIZE, in_bytes(config.fsize_mb));
    let l3 = l2 + plain_limit(RLIMIT_STACK, in_bytes(config.stack_mb));
    assert(mebibyte_limit(RLIMIT_STACK, config.stack_mb) =~= plain_limit(
        RLIMIT_STACK,
        in_bytes(config.stack_mb),
    ));
    lemma_limit_added(l2, RLIMIT_STACK, in_bytes(config.stack_mb));
    let l4 = l3 + plain_limit(RLIMIT_AS, in_bytes(config.as_mb));
    assert(mebibyte_limit(RLIMIT_AS, config.as_mb) =~= plain_limit(
        RLIMIT_AS,
        in_bytes(config.as_mb),
    ));
    lemma_limit_added(l3, RLIMIT_AS, in_bytes(config.as_mb));
    let l5 = l4 + plain_limit(RLIMIT_CORE, in_bytes(config.core_mb));
    assert(mebibyte_limit(RLIMIT_CORE, config.core_mb) =~= plain_limit(
        RLIMIT_CORE,
        in_bytes(config.core_mb),
    ));
    lemma_limit_added(l4, RLIMIT_CORE, in_bytes(config.core_mb));
    let l6 = l5 + plain_limit(RLIMIT_CPU, config.cpu_seconds);
    lemma_limit_added(l5, RLIMIT_CPU, config.cpu_seconds);
    assert(l0 =~= plain_limit(RLIMIT_NOFILE, config.nofile));
    let whole = r->Ok_0.limits@;
    assert(whole == l6);
    assert(limited_to(none, RLIMIT_NPROC, None));
    assert(limited_to(none, RLIMIT_FSIZE, None));
    assert(limited_to(none, RLIMIT_STACK, None));
    assert(limited_to(none, RLIMIT_AS, None));
    assert(limited_to(none, RLIMIT_CORE, None));
    assert(limited_to(none, RLIMIT_CPU, None));
    assert(limited_to(whole, RLIMIT_NOFILE, config.nofile));
    assert(limited_to(whole, RLIMIT_NPROC, config.nproc));
    assert(limited_to(whole, RLIMIT_FSIZE, in_bytes(config.fsize_mb)));
    assert(limited_to(whole, RLIMIT_STACK, in_bytes(config.stack_mb)));
    assert(limited_to(whole, RLIMIT_AS, in_bytes(config.as_mb)));
    assert(limited_to(whole, RLIMIT_CORE, in_bytes(config.core_mb)));
    assert(limited_to(whole, RLIMIT_CPU, config.cpu_seconds));
    reveal(limited_to);
}

/// Whether the limit on `resource` is `value`; without one, there is no entry for
/// the resource.
#[verifier::opaque]
spec fn limited_to(limits: Seq<RlimitEntry>, resource: i32, value: Option<u64>) -> bool {
    match value {
        Some(v) => is_limited(limits, resource, v),
        None => forall|j: int| 0 <= j < limits.len() ==> (#[trigger] limits[j]).resource
            != resource,
    }
}

spec fn in_bytes(value: Option<u64>) -> Option<u64> {
    match value {
        Some(v) => Some(mebibytes(v)),
        None => None,
    }
}

/// An entry that is added limits its own resource, and no other.
proof fn lemma_limit_added(limits: Seq<RlimitEntry>, added: i32, value: Option<u64>)
    ensures
        limited_to(limits, added, None) ==> limited_to(
            limits + plain_limit(added, value),
            added,
            value,
        ),
        forall|resource: i32, x: Option<u64>|
            resource != added && #[trigger] limited_to(limits, resource, x) ==> limited_to(
                limits + plain_limit(added, value),
                resource,
                x,
            ),
{
    reveal(limited_to);
    let after = limits + plain_limit(added, value);
    let n = limits.len() as int;
    if let Some(v) = value {
        if limited_to(limits, added, None) {
            assert(is_limited_at(after, added, v, n));
        }
    } else {
        assert(after =~= limits);
    }
    assert forall|resource: i32, x: Option<u64>|
        resource != added && #[trigger] limited_to(limits, resource, x) implies limited_to(
        after,
        resource,
        x,
    ) by {
        if let Some(v) = x {
            let i = choose|i: int| #[trigger] is_limited_at(limits, resource, v, i);
            assert(is_limited_at(after, resource, v, i));
        }
    }
}

/// Nothing is limited that no limit was asked for.
pub proof fn law_no_other_limit_is_set(
    config: ResourceLimits,
    arena: &bumpalo::Bump,
    r: Result<RlimitSpec, BuildError>,
    i: int,
)
    requires
        call_ensures(ResourceLimits::prepare, (&config, arena), r),
        0 <= i < r->Ok_0.limits@.len(),
    ensures
        r->Ok_0.limits@[i].resource == RLIMIT_NOFILE && config.nofile is Some
            || r->Ok_0.limits@[i].resource == RLIMIT_NPROC && config.nproc is Some
            || r->Ok_0.limits@[i].resource == RLIMIT_FSIZE && config.fsize_mb is Some
            || r->Ok_0.limits@[i].resource == RLIMIT_STACK && config.stack_mb is Some
            || r->Ok_0.limits@[i].resource == RLIMIT_AS && config.as_mb is Some
            || r->Ok_0.limits@[i].resource == RLIMIT_CORE && config.core_mb is Some
            || r->Ok_0.limits@[i].resource == RLIMIT_CPU && config.cpu_seconds is Some,
{
}

/// The place of a resource in the order in which limits are set.
pub open spec fn place(resource: i32) -> int {
    if resource == RLIMIT_NOFILE {
        1
    } else if resource == RLIMIT_NPROC {
        2
    } else if resource == RLIMIT_FSIZE {
        3
    } else if resource == RLIMIT_STACK {
        4
    } else if resource == RLIMIT_AS {
        5
    } else if resource == RLIMIT_CORE {
        6
    } else {
        7
    }
}

/// The limits come in one order, whichever of them are asked for.
pub proof fn law_limits_come_in_order(
    config: ResourceLimits,
    arena: &bumpalo::Bump,
    r: Result<RlimitSpec, BuildError>,
    i: int,
    j: int,
)
    requires
        call_ensures(ResourceLimits::prepare, (&config, arena), r),
        0 <= i < j < r->Ok_0.limits@.len(),
    ensures
        place(r->Ok_0.limits@[i].resource) < place(r->Ok_0.limits@[j].resource),
{
    let none = Seq::<RlimitEntry>::empty();
    assert(is_ordered_below(none, 1)) by {
        reveal(is_ordered_below);
    }
    let l0 = none + plain_limit(RLIMIT_NOFILE, config.nofile);
    lemma_order_kept(none, RLIMIT_NOFILE, config.nofile);
    let l1 = l0 + plain_limit(RLIMIT_NPROC, config.nproc);
    lemma_order_kept(l0, RLIMIT_NPROC, config.nproc);
    let l2 = l1 + plain_limit(RLIMIT_FSIZE, in_bytes(config.fsize_mb));
    lemma_order_kept(l1, RLIMIT_FSIZE, in_bytes(config.fsize_mb));
    assert(mebibyte_limit(RLIMIT_FSIZE, config.fsize_mb) =~= plain_limit(
        RLIMIT_FSIZE,
        in_bytes(config.fsize_mb),
    ));
    let l3 = l2 + plain_limit(RLIMIT_STACK, in_bytes(config.stack_mb));
    lemma_order_kept(l2, RLIMIT_STACK, in_bytes(config.stack_mb));
    assert(mebibyte_limit(RLIMIT_STACK, config.stack_mb) =~= plain_limit(
        RLIMIT_STACK,
        in_bytes(config.stack_mb),
    ));
    let l4 = l3 + plain_limit(RLIMIT_AS, in_bytes(config.as_mb));
    lemma_order_kept(l3, RLIMIT_AS, in_bytes(config.as_mb));
    assert(mebibyte_limit(RLIMIT_AS, config.as_mb) =~= plain_limit(
        RLIMIT_AS,
        in_bytes(config.as_mb),
    ));
    let l5 = l4 + plain_limit(RLIMIT_CORE, in_bytes(config.core_mb));
    lemma_order_kept(l4, RLIMIT_CORE, in_bytes(config.core_mb));
    assert(mebibyte_limit(RLIMIT_CORE, config.core_mb) =~= plain_limit(
        RLIMIT_CORE,
        in_bytes(config.core_mb),
    ));
    let l6 = l5 + plain_limit(RLIMIT_CPU, config.cpu_seconds);
    lemma_order_kept(l5, RLIMIT_CPU, config.cpu_seconds);
    assert(l0 =~= plain_limit(RLIMIT_NOFILE, config.nofile));
    assert(r->Ok_0.limits@ == l6);
    reveal(is_ordered_below);
}

/// Whether the entries come in order, and all of them before place `end`.
#[verifier::opaque]
spec fn is_ordered_below(limits: Seq<RlimitEntry>, end: int) -> bool {
    &&& forall|i: int| 0 <= i < limits.len() ==> place((#[trigger] limits[i]).resource) < end
    &&& forall|i: int, j: int|
        0 <= i < j < limits.len() ==> place((#[trigger] limits[i]).resource) < place(
            (#[trigger] limits[j]).resource,
        )
}

proof fn lemma_order_kept(limits: Seq<RlimitEntry>, added: i32, value: Option<u64>)
    requires
        is_ordered_below(limits, place(added)),
    ensures
        is_ordered_below(limits + plain_limit(added, value), place(added) + 1),
{
    reveal(is_ordered_below);
}

} // verus!
