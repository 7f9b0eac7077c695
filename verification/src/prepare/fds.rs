//! Descriptors.

use std::collections::BTreeSet;

use vstd::prelude::*;

use crate::child::{FdAction, FdSpec};
use crate::config::{FdMapping, FileDescriptors};
use crate::error::BuildError;

verus! {

broadcast use vstd::laws_cmp::group_laws_cmp;

/// Whether every descriptor of `fds` comes before the next.
pub open spec fn is_increasing(fds: Seq<i32>) -> bool {
    forall|i: int, j: int| 0 <= i < j < fds.len() ==> fds[i] < fds[j]
}

/// Whether the first `n` mappings lead to `fd`.
pub open spec fn is_target(mappings: Seq<FdMapping>, n: int, fd: i32) -> bool {
    exists|i: int| 0 <= i < n && (#[trigger] mappings[i]).dst == fd
}

/// Whether `fd` stays open: it is one of the standard three, or one of the first
/// `n` mappings leads to it.
pub open spec fn is_kept(mappings: Seq<FdMapping>, n: int, fd: i32) -> bool {
    0 <= fd <= 2 || is_target(mappings, n, fd)
}

/// The descriptors of a set, in increasing order.
fn in_order(fds: &BTreeSet<i32>) -> (r: Vec<i32>)
    ensures
        is_increasing(r@),
        r@.to_set() == fds@,
{
    let mut list: Vec<i32> = Vec::new();
    let ghost all = vstd::std_specs::iter::IteratorSpec::remaining(&fds.iter());
    for fd in it: fds.iter()
        invariant
            it.seq() == all,
            list@ == all.take(it.index()).unref(),
    {
        list.push(*fd);
    }
    assert(list@ =~= all.unref());
    assert forall|i: int, j: int| 0 <= i < j < list@.len() implies list@[i] < list@[j] by {
        assert(vstd::std_specs::cmp::OrdSpec::cmp_spec(&all[i], &all[j]) is Less);
    }
    list
}

impl FileDescriptors {
    /// Whether `r` carries out the mappings in order, keeps the standard
    /// descriptors and those that the mappings lead to, each once and in
    /// increasing order, and closes the others if that is asked for.
    pub open spec fn yields(self, r: FdSpec) -> bool {
        let n = self.mappings@.len() as int;
        &&& r.actions@ == self.mappings@.map_values(
            |m: FdMapping| FdAction::Dup2 { src: m.src, dst: m.dst },
        )
        &&& is_increasing(r.keep@)
        &&& forall|fd: i32| r.keep@.contains(fd) <==> is_kept(self.mappings@, n, fd)
        &&& r.close_fds == self.close_fds
    }

    /// Prepares the descriptors. Nothing can be wrong with them.
    pub fn prepare<'a>(&self, arena: &'a bumpalo::Bump) -> (r: Result<FdSpec<'a>, BuildError>)
        ensures
            r matches Ok(fds) && self.yields(fds),
    {
        let mut actions: Vec<FdAction> = Vec::new();
        let mut keep: BTreeSet<i32> = BTreeSet::new();
        keep.insert(0);
        keep.insert(1);
        keep.insert(2);
        let mut i: usize = 0;
        while i < self.mappings.len()
            invariant
                i <= self.mappings@.len(),
                actions@ == self.mappings@.take(i as int).map_values(
                    |m: FdMapping| FdAction::Dup2 { src: m.src, dst: m.dst },
                ),
                forall|fd: i32| keep@.contains(fd) <==> is_kept(self.mappings@, i as int, fd),
            decreases self.mappings@.len() - i,
        {
            let m = self.mappings[i];
            actions.push(FdAction::Dup2 { src: m.src, dst: m.dst });
            let ghost before = keep@;
            keep.insert(m.dst);
            i += 1;
            proof {
                assert(actions@ =~= self.mappings@.take(i as int).map_values(
                    |m: FdMapping| FdAction::Dup2 { src: m.src, dst: m.dst },
                ));
                assert forall|fd: i32| keep@.contains(fd) <==> is_kept(
                    self.mappings@,
                    i as int,
                    fd,
                ) by {
                    assert(keep@.contains(fd) <==> before.contains(fd) || fd == m.dst);
                    assert(before.contains(fd) <==> is_kept(self.mappings@, i - 1, fd));
                    if is_target(self.mappings@, i as int, fd) {
                        let k = choose|k: int|
                            0 <= k < i && (#[trigger] self.mappings@[k]).dst == fd;
                        if k < i - 1 {
                            assert(is_target(self.mappings@, i - 1, fd));
                        }
                    }
                    if is_target(self.mappings@, i - 1, fd) {
                        let k = choose|k: int|
                            0 <= k < i - 1 && (#[trigger] self.mappings@[k]).dst == fd;
                        assert(self.mappings@[k].dst == fd);
                    }
                    if fd == m.dst {
                        assert(self.mappings@[i - 1].dst == fd);
                    }
                }
            }
        }
        assert(self.mappings@.take(i as int) =~= self.mappings@);
        let keep = in_order(&keep);
        assert(forall|fd: i32| keep@.contains(fd) <==> keep@.to_set().contains(fd));
        Ok(
            FdSpec {
                actions: crate::arena::alloc_items(arena, actions),
                keep: crate::arena::alloc_items(arena, keep),
                close_fds: self.close_fds,
            },
        )
    }
}

/// Every mapping is carried out, in order and as it was given, and nothing else
/// is. The standard descriptors and the targets of the mappings are kept, each
/// once and in increasing order, and no other descriptor is.
pub proof fn law_mappings_are_carried_out(
    config: FileDescriptors,
    arena: &bumpalo::Bump,
    r: Result<FdSpec, BuildError>,
    i: int,
    fd: i32,
)
    requires
        call_ensures(FileDescriptors::prepare, (&config, arena), r),
    ensures
        r matches Ok(fds) && {
            &&& fds.actions@.len() == config.mappings@.len()
            &&& 0 <= i < config.mappings@.len() ==> fds.actions@[i] == (FdAction::Dup2 {
                src: config.mappings@[i].src,
                dst: config.mappings@[i].dst,
            })
            &&& 0 <= i < config.mappings@.len() ==> fds.keep@.contains(config.mappings@[i].dst)
            &&& fds.keep@.contains(0) && fds.keep@.contains(1) && fds.keep@.contains(2)
            &&& fds.keep@.contains(fd) ==> fd == 0 || fd == 1 || fd == 2 || exists|k: int|
                0 <= k < config.mappings@.len() && (#[trigger] config.mappings@[k]).dst == fd
            &&& 0 <= i && i + 1 < fds.keep@.len() ==> fds.keep@[i] < fds.keep@[i + 1]
            &&& fds.close_fds == config.close_fds
        },
{
    let n = config.mappings@.len() as int;
    if 0 <= i < n {
        assert(is_target(config.mappings@, n, config.mappings@[i].dst));
        assert(is_kept(config.mappings@, n, config.mappings@[i].dst));
    }
    assert(is_kept(config.mappings@, n, 0) && is_kept(config.mappings@, n, 1) && is_kept(
        config.mappings@,
        n,
        2,
    ));
}

} // verus!
