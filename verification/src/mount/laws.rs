//! What holds of every filesystem setup.

use vstd::prelude::*;

use super::ops::{Handle, MountAttr, Op, OpList, MAX_OPS, WHOLE_TREE};
use super::path::{FsKey, FsType, FsValue, Path};
use super::{MountCommand, MountState, Section};
use crate::child::{BindMount, BindMountSource, MountEntry, MountPlan};
use crate::error::Errno;
use crate::sys::{AT_EMPTY_PATH, AT_RECURSIVE, EEXIST, ENAMETOOLONG};
use crate::zstr::ZStr;

verus! {

/// Where a setup stands once its operations have had the given results.
pub open spec fn run(plan: &MountPlan, replies: Seq<Result<(), Errno>>) -> MountState
    decreases replies.len(),
{
    if replies.len() == 0 {
        super::starting(plan)
    } else {
        super::stepping(plan, run(plan, replies.drop_last()), replies.last())
    }
}

/// The place of a section in the order.
pub open spec fn rank(plan: &MountPlan, section: Section) -> int {
    let n = plan.entries@.len() as int;
    match section {
        Section::Root => 0,
        Section::Dev => 1,
        Section::Entry(i) => 2 + i,
        Section::Pivot => 2 + n,
        Section::Cleanup(i) => 3 + n + i,
        Section::Finish => 3 + n + super::files(plan.entries@, n),
    }
}

/// Whether the setup of `plan` has an operation at that place.
pub open spec fn has_place(plan: &MountPlan, section: Section, index: int) -> bool {
    super::has_section(plan, section) && 0 <= index < super::section_ops(plan, section).len()
}

/// Whether the operation at a place was number `k` to be performed, and did not
/// stop the setup.
pub open spec fn performed_at(
    plan: &MountPlan,
    replies: Seq<Result<(), Errno>>,
    section: Section,
    index: int,
    k: int,
) -> bool {
    &&& 0 <= k < replies.len()
    &&& run(plan, replies.take(k)) matches MountState::Performing { section: s, index: i }
    &&& s == section && i == index
    &&& replies[k] matches Err(err) ==> super::section_ops(plan, section)[index].tolerates(err)
}

/// Whether the operation at a place has been performed.
pub open spec fn performed(
    plan: &MountPlan,
    replies: Seq<Result<(), Errno>>,
    section: Section,
    index: int,
) -> bool {
    exists|k: int| performed_at(plan, replies, section, index, k)
}

/// The first thing that a setup does is to make the whole mount tree private.
pub proof fn law_starts_private(plan: &MountPlan)
    ensures
        run(plan, seq![]) == (MountState::Performing { section: Section::Root, index: 0 }),
        super::section_ops(plan, Section::Root)[0] == (Op::SetAttr {
            at: Handle::Cwd,
            path: Path::Slash,
            flags: AT_RECURSIVE,
            attr: MountAttr::private(),
        }),
{
}

/// Whether an entry asks for a read-only mount.
pub open spec fn is_read_only(entry: MountEntry) -> bool {
    match entry {
        MountEntry::Bind(bind) => bind.read_only,
        MountEntry::Tmpfs(tmpfs) => tmpfs.read_only,
        MountEntry::File(file) => file.read_only,
        _ => false,
    }
}

/// Whether an entry binds a directory, with whatever is mounted in it.
pub open spec fn is_tree(entry: MountEntry) -> bool {
    entry matches MountEntry::Bind(bind) && bind.src_is_dir
}

/// Whether operation `k` makes the mount held by `at` read-only, with whatever is
/// mounted in it if `whole`.
pub open spec fn makes_read_only(ops: Seq<Op>, at: Handle, whole: bool, k: int) -> bool {
    &&& ops[k] matches Op::SetAttr { at: h, path, flags, attr }
    &&& h == at && path is Nothing && attr == MountAttr::read_only()
    &&& flags == if whole {
        WHOLE_TREE
    } else {
        AT_EMPTY_PATH
    }
}

/// Whether whatever is attached by the operations is made read-only by the
/// operation right before.
spec fn all_read_only(ops: Seq<Op>, whole: bool) -> bool {
    forall|j: int|
        0 <= j < ops.len() ==> (#[trigger] ops[j] matches Op::Attach { from, dst } ==> j > 0
            && makes_read_only(ops, from, whole, j - 1))
}

proof fn lemma_read_only_concat(a: Seq<Op>, b: Seq<Op>, whole: bool)
    requires
        all_read_only(a, whole),
        all_read_only(b, whole),
    ensures
        all_read_only(a + b, whole),
{
    let ops = a + b;
    assert forall|j: int| 0 <= j < ops.len() implies (#[trigger] ops[j] matches Op::Attach {
        from,
        dst,
    } ==> j > 0 && makes_read_only(ops, from, whole, j - 1)) by {
        if let Op::Attach { from, dst } = ops[j] {
            if j < a.len() {
                assert(a[j] == ops[j]);
                assert(makes_read_only(a, from, whole, j - 1));
            } else {
                let i = j - a.len();
                assert(b[i] == ops[j]);
                assert(makes_read_only(b, from, whole, i - 1));
            }
        }
    }
}

proof fn lemma_attach_is_read_only(dst: ZStr, whole: bool)
    ensures
        all_read_only(super::ops::attach_ops(dst, true, whole), whole),
{
    let ops = super::ops::attach_ops(dst, true, whole);
    assert(makes_read_only(ops, Handle::Tree, whole, 0));
}

proof fn lemma_source_is_read_only(bind: BindMount)
    requires
        bind.read_only,
    ensures
        all_read_only(super::ops::source_ops(bind), bind.src_is_dir),
{
    let ops = super::ops::source_ops(bind);
    if let BindMountSource::Prepared(prepared) = bind.source {
        assert(makes_read_only(
            ops,
            Handle::Prepared(prepared.spec_fd()),
            bind.src_is_dir,
            1,
        ));
    }
}

/// Nothing that is to be read-only is ever attached writable: whatever a
/// read-only entry attaches is made read-only by the operation right before, so
/// that what is attached is still the mount that was made read-only. If it is a
/// directory, so is whatever is mounted in it.
pub proof fn law_read_only_before_attached(entry: MountEntry, index: usize, j: int)
    requires
        is_read_only(entry),
        0 <= j < super::ops::entry_ops(entry, index).len(),
    ensures
        super::ops::entry_ops(entry, index)[j] matches Op::Attach { from, dst } ==> j > 0
            && makes_read_only(
            super::ops::entry_ops(entry, index),
            from,
            is_tree(entry),
            j - 1,
        ),
{
    match entry {
        MountEntry::Bind(bind) => {
            let point = super::ops::mount_point_ops(bind.dst_rel, bind.src_is_dir);
            lemma_source_is_read_only(bind);
            lemma_read_only_concat(point, super::ops::source_ops(bind), bind.src_is_dir);
            lemma_attach_is_read_only(bind.dst_rel, bind.src_is_dir);
            lemma_read_only_concat(
                point + super::ops::source_ops(bind),
                super::ops::attach_ops(bind.dst_rel, true, bind.src_is_dir),
                bind.src_is_dir,
            );
        },
        MountEntry::Tmpfs(tmpfs) => {
            let list = super::ops::tmpfs_ops(tmpfs);
            let last = super::ops::attach_ops(tmpfs.dst_rel, true, false);
            let first = list.take(list.len() - last.len());
            assert(list =~= first + last);
            lemma_attach_is_read_only(tmpfs.dst_rel, false);
            lemma_read_only_concat(first, last, false);
        },
        MountEntry::File(file) => {
            let list = super::ops::file_ops(file, index);
            let last = super::ops::attach_ops(file.dst_rel, true, false);
            let first = list.take(list.len() - last.len());
            assert(list =~= first + last);
            lemma_attach_is_read_only(file.dst_rel, false);
            lemma_read_only_concat(first, last, false);
        },
        _ => {},
    }
    assert(all_read_only(super::ops::entry_ops(entry, index), is_tree(entry)));
}

/// A prepared tree is made private, with everything in it, before it is attached
/// for the moment in which it is cloned.
pub proof fn law_prepared_is_private_before_attached(bind: BindMount, j: int, fd: i32)
    requires
        0 <= j < super::ops::source_ops(bind).len(),
        super::ops::source_ops(bind)[j] matches Op::Attach { from, dst } && from
            == Handle::Prepared(fd),
    ensures
        j > 0,
        super::ops::source_ops(bind)[0] == (Op::SetAttr {
            at: Handle::Prepared(fd),
            path: Path::Nothing,
            flags: WHOLE_TREE,
            attr: MountAttr::private(),
        }),
{
}

/// The attachment in which a prepared tree is cloned is taken away again before
/// anything else is attached, or the setup fails.
pub proof fn law_prepared_is_attached_for_a_moment(bind: BindMount)
    requires
        bind.source is Prepared,
    ensures
        super::ops::source_ops(bind).last() == super::ops::detach_op(bind.dst_rel),
        forall|j: int|
            0 <= j < super::ops::source_ops(bind).len() ==> (#[trigger] super::ops::source_ops(
                bind,
            )[j] matches Op::Attach { from, dst } ==> from is Prepared && dst == Path::Given(
                bind.dst_rel,
            )),
{
}

/// Whether an operation can be handed over: its paths fit their buffers, and
/// it is refused only because a path would not.
pub open spec fn is_sound(op: Op) -> bool {
    &&& forall|k: int| 0 <= k < op.paths().len() ==> (#[trigger] op.paths()[k]).fits()
    &&& op matches Op::Refuse(err) ==> err == Errno(ENAMETOOLONG)
}

spec fn all_sound(ops: Seq<Op>) -> bool {
    forall|j: int| 0 <= j < ops.len() ==> is_sound(#[trigger] ops[j])
}

proof fn lemma_sound_concat(a: Seq<Op>, b: Seq<Op>)
    requires
        all_sound(a),
        all_sound(b),
    ensures
        all_sound(a + b),
{
    let ops = a + b;
    assert forall|j: int| 0 <= j < ops.len() implies is_sound(#[trigger] ops[j]) by {
        if j < a.len() {
            assert(is_sound(a[j]));
        } else {
            assert(is_sound(b[j - a.len()]));
        }
    }
}

proof fn lemma_mount_point_is_sound(dst: ZStr, is_dir: bool)
    ensures
        all_sound(super::ops::mount_point_ops(dst, is_dir)),
{
    let parents = super::ops::parent_dirs_ops(dst);
    lemma_last_slash(dst@);
    assert(all_sound(parents));
    lemma_sound_concat(parents, seq![Op::CreateFile { path: Path::Given(dst) }]);
}

proof fn lemma_last_slash(s: Seq<u8>)
    ensures
        -1 <= super::path::last_slash(s) < s.len(),
    decreases s.len(),
{
    if s.len() > 0 && s.last() != 47 {
        lemma_last_slash(s.drop_last());
    }
}

proof fn lemma_staging_name_fits(index: usize)
    ensures
        Path::StagingName(index).fits(),
{
    reveal_strlit("content-");
    super::path::lemma_plain_text("content-"@);
    crate::text::lemma_decimal_len(index as u64);
}

proof fn lemma_attach_is_sound(dst: ZStr, read_only: bool, whole: bool)
    ensures
        all_sound(super::ops::attach_ops(dst, read_only, whole)),
{
}

proof fn lemma_source_is_sound(bind: BindMount)
    ensures
        all_sound(super::ops::source_ops(bind)),
{
}

proof fn lemma_filesystem_is_sound(dst: ZStr, fs: FsType, options: Seq<Op>, read_only: bool)
    requires
        all_sound(options),
    ensures
        all_sound(super::ops::filesystem_ops(dst, fs, options, read_only)),
{
    let first = seq![Op::MkdirAll { path: Path::Given(dst) }, Op::FsOpen(fs)];
    let create = seq![Op::FsConfigCreate, Op::FsMount];
    assert(all_sound(first));
    assert(all_sound(create));
    lemma_attach_is_sound(dst, read_only, false);
    lemma_sound_concat(first, options);
    lemma_sound_concat(first + options, create);
    lemma_sound_concat(
        first + options + create,
        super::ops::attach_ops(dst, read_only, false),
    );
}

proof fn lemma_options_are_sound(a: FsKey, x: Option<FsValue>, b: FsKey, y: Option<FsValue>)
    ensures
        all_sound(super::ops::option_ops(a, x) + super::ops::option_ops(b, y)),
{
}

proof fn lemma_entry_is_sound(entry: MountEntry, index: usize)
    ensures
        all_sound(super::ops::entry_ops(entry, index)),
{
    match entry {
        MountEntry::Bind(bind) => {
            let point = super::ops::mount_point_ops(bind.dst_rel, bind.src_is_dir);
            let source = super::ops::source_ops(bind);
            lemma_mount_point_is_sound(bind.dst_rel, bind.src_is_dir);
            lemma_source_is_sound(bind);
            lemma_attach_is_sound(bind.dst_rel, bind.read_only, bind.src_is_dir);
            lemma_sound_concat(point, source);
            lemma_sound_concat(
                point + source,
                super::ops::attach_ops(bind.dst_rel, bind.read_only, bind.src_is_dir),
            );
        },
        MountEntry::Tmpfs(tmpfs) => {
            let size = super::ops::size_value(tmpfs);
            let mode = super::ops::mode_value(tmpfs);
            lemma_options_are_sound(FsKey::Size, size, FsKey::Mode, mode);
            lemma_filesystem_is_sound(
                tmpfs.dst_rel,
                FsType::Tmpfs,
                super::ops::option_ops(FsKey::Size, size) + super::ops::option_ops(
                    FsKey::Mode,
                    mode,
                ),
                tmpfs.read_only,
            );
        },
        MountEntry::Proc(proc_mount) => {
            let subset = super::ops::subset_value(proc_mount);
            let hidepid = super::ops::hidepid_value(proc_mount);
            lemma_options_are_sound(FsKey::Subset, subset, FsKey::HidePid, hidepid);
            lemma_filesystem_is_sound(
                proc_mount.dst_rel,
                FsType::Proc,
                super::ops::option_ops(FsKey::Subset, subset) + super::ops::option_ops(
                    FsKey::HidePid,
                    hidepid,
                ),
                false,
            );
        },
        MountEntry::Mqueue(mqueue) => {
            lemma_filesystem_is_sound(mqueue.dst_rel, FsType::Mqueue, seq![], false);
        },
        MountEntry::File(file) => {
            lemma_staging_name_fits(index);
            let path = Path::StagingName(index);
            let write = seq![Op::WriteFile { path, content: file.content }];
            let point = super::ops::mount_point_ops(file.dst_rel, false);
            let open = seq![
                Op::OpenTree { at: Handle::Staging, path, flags: super::ops::CLONE_ONE },
            ];
            assert(all_sound(write));
            assert(all_sound(open));
            lemma_mount_point_is_sound(file.dst_rel, false);
            lemma_attach_is_sound(file.dst_rel, file.read_only, false);
            lemma_sound_concat(write, point);
            lemma_sound_concat(write + point, open);
            lemma_sound_concat(
                write + point + open,
                super::ops::attach_ops(file.dst_rel, file.read_only, false),
            );
        },
    }
}

/// Every path that an operation of the setup names fits its buffer, and the
/// setup refuses to go on only where a path would not.
pub proof fn law_operations_are_sound(plan: &MountPlan, section: Section, j: int)
    requires
        has_place(plan, section, j),
    ensures
        is_sound(super::section_ops(plan, section)[j]),
{
    match section {
        Section::Entry(i) => {
            lemma_entry_is_sound(
                plan.entries@[i as int],
                super::files(plan.entries@, i as int) as usize,
            );
        },
        Section::Cleanup(i) => {
            lemma_staging_name_fits(i);
        },
        _ => {},
    }
}

/// A setup that has succeeded or failed does nothing more.
pub proof fn law_end_is_final(
    plan: &MountPlan,
    replies: Seq<Result<(), Errno>>,
    more: Seq<Result<(), Errno>>,
)
    requires
        !(run(plan, replies) is Performing),
    ensures
        run(plan, replies + more) == run(plan, replies),
    decreases more.len(),
{
    if more.len() == 0 {
        assert(replies + more =~= replies);
    } else {
        law_end_is_final(plan, replies, more.drop_last());
        assert((replies + more).drop_last() =~= replies + more.drop_last());
    }
}

proof fn lemma_place(plan: &MountPlan, replies: Seq<Result<(), Errno>>)
    requires
        super::is_markable(plan),
    ensures
        run(plan, replies) matches MountState::Performing { section, index } ==> has_place(
            plan,
            section,
            index as int,
        ) && !(super::section_ops(plan, section)[index as int] is Refuse),
    decreases replies.len(),
{
    if replies.len() > 0 {
        lemma_place(plan, replies.drop_last());
        if let MountState::Performing { section, index } = run(plan, replies.drop_last()) {
            lemma_next(plan, section, index as int);
        }
    }
}

/// What follows an operation is the next of its section, or the first of the
/// next section.
proof fn lemma_next(plan: &MountPlan, section: Section, index: int)
    requires
        super::is_markable(plan),
        has_place(plan, section, index),
    ensures
        super::following(plan, section, index) matches MountState::Performing {
            section: s,
            index: i,
        } ==> {
            &&& has_place(plan, s, i as int)
            &&& !(super::section_ops(plan, s)[i as int] is Refuse)
            &&& (s == section && i == index + 1) || (index + 1 == super::section_ops(
                plan,
                section,
            ).len() && rank(plan, s) == rank(plan, section) + 1 && i == 0)
        },
        super::following(plan, section, index) is Done ==> section is Finish && index + 1
            == super::section_ops(plan, section).len(),
{
    super::lemma_files(plan.entries@, plan.entries@.len() as int);
    if let Some(next) = super::section_after(plan, section) {
        super::lemma_section_is_not_empty(plan, next);
    }
}

/// Sections in the same place of the order are the same.
proof fn lemma_rank_is_injective(plan: &MountPlan, a: Section, b: Section)
    requires
        super::has_section(plan, a),
        super::has_section(plan, b),
        rank(plan, a) == rank(plan, b),
    ensures
        a == b,
{
}

/// A setup that is at an operation has performed every earlier one: those of the
/// earlier sections, and those before it in its own.
pub proof fn law_earlier_operations_performed(
    plan: &MountPlan,
    replies: Seq<Result<(), Errno>>,
    section: Section,
    index: usize,
    earlier: Section,
    i: int,
)
    requires
        super::is_markable(plan),
        run(plan, replies) == (MountState::Performing { section, index }),
        has_place(plan, earlier, i),
        rank(plan, earlier) < rank(plan, section) || (earlier == section && i < index),
    ensures
        performed(plan, replies, earlier, i),
    decreases replies.len(),
{
    if replies.len() > 0 {
        let before = replies.drop_last();
        let n = before.len() as int;
        lemma_place(plan, before);
        if let MountState::Performing { section: s, index: j } = run(plan, before) {
            lemma_next(plan, s, j as int);
            if earlier == s && i == j {
                assert(replies.take(n) =~= before);
                assert(performed_at(plan, replies, earlier, i, n));
            } else {
                if rank(plan, earlier) == rank(plan, s) {
                    lemma_rank_is_injective(plan, earlier, s);
                }
                law_earlier_operations_performed(plan, before, s, j, earlier, i);
                lemma_performed_stays(plan, before, replies.last(), earlier, i);
                assert(before.push(replies.last()) =~= replies);
            }
        }
    }
}

proof fn lemma_performed_stays(
    plan: &MountPlan,
    replies: Seq<Result<(), Errno>>,
    reply: Result<(), Errno>,
    section: Section,
    index: int,
)
    requires
        performed(plan, replies, section, index),
    ensures
        performed(plan, replies.push(reply), section, index),
{
    let k = choose|k: int| performed_at(plan, replies, section, index, k);
    assert(replies.push(reply).take(k) =~= replies.take(k));
    assert(performed_at(plan, replies.push(reply), section, index, k));
}

/// A setup that succeeds has performed every operation: every entry of the plan,
/// the change of the root and the cleanup.
pub proof fn law_done_means_everything(
    plan: &MountPlan,
    replies: Seq<Result<(), Errno>>,
    section: Section,
    index: int,
)
    requires
        super::is_markable(plan),
        run(plan, replies) is Done,
        has_place(plan, section, index),
    ensures
        performed(plan, replies, section, index),
    decreases replies.len(),
{
    if replies.len() > 0 {
        let before = replies.drop_last();
        let n = before.len() as int;
        assert(before.push(replies.last()) =~= replies);
        lemma_place(plan, before);
        if let MountState::Performing { section: s, index: j } = run(plan, before) {
            lemma_next(plan, s, j as int);
            if section == s && index == j {
                assert(replies.take(n) =~= before);
                assert(performed_at(plan, replies, section, index, n));
            } else {
                if rank(plan, section) == rank(plan, s) {
                    lemma_rank_is_injective(plan, section, s);
                }
                law_earlier_operations_performed(plan, before, s, j, section, index);
                lemma_performed_stays(plan, before, replies.last(), section, index);
            }
        } else {
            law_done_means_everything(plan, before, section, index);
            lemma_performed_stays(plan, before, replies.last(), section, index);
        }
    }
}

/// A setup fails only with the error of an operation that may not fail, or
/// because a path of the next operation is too long. The mark names the section
/// of the operation that failed or was refused.
pub proof fn law_failure_is_explained(
    plan: &MountPlan,
    section: Section,
    index: usize,
    reply: Result<(), Errno>,
)
    requires
        super::is_markable(plan),
        has_place(plan, section, index as int),
    ensures
        super::stepping(plan, MountState::Performing { section, index }, reply) matches
            MountState::Failed(failure) ==> {
            ||| {
                &&& reply == Err::<(), Errno>(failure.errno)
                &&& !super::section_ops(plan, section)[index as int].tolerates(failure.errno)
                &&& failure.detail == super::section_detail(section)
            }
            ||| {
                &&& index + 1 < super::section_ops(plan, section).len()
                &&& super::section_ops(plan, section)[index + 1] is Refuse
                &&& failure.errno == Errno(ENAMETOOLONG)
                &&& failure.detail == super::section_detail(section)
            }
            ||| {
                &&& index + 1 == super::section_ops(plan, section).len()
                &&& super::section_after(plan, section) matches Some(next)
                &&& super::section_ops(plan, next)[0] is Refuse
                &&& failure.errno == Errno(ENAMETOOLONG)
                &&& failure.detail == super::section_detail(next)
            }
        },
{
    lemma_next(plan, section, index as int);
    if index + 1 < super::section_ops(plan, section).len() {
        law_operations_are_sound(plan, section, index + 1);
    } else if let Some(next) = super::section_after(plan, section) {
        super::lemma_files(plan.entries@, plan.entries@.len() as int);
        super::lemma_section_is_not_empty(plan, next);
        law_operations_are_sound(plan, next, 0);
    }
}

/// Every staged file is removed again: the name that an entry writes is one that
/// the cleanup unlinks.
pub proof fn law_staged_files_are_removed(plan: &MountPlan, i: usize)
    requires
        i < plan.entries@.len(),
        plan.entries@[i as int] is File,
    ensures
        super::section_ops(plan, Section::Entry(i))[0] matches Op::WriteFile { path, content }
            && path matches Path::StagingName(index) && super::has_section(
            plan,
            Section::Cleanup(index),
        ) && super::section_ops(plan, Section::Cleanup(index))[0] == (Op::Unlink {
            at: Handle::Staging,
            path,
            flags: 0,
            required: true,
        }),
{
    let n = plan.entries@.len() as int;
    super::lemma_files(plan.entries@, i as int);
    super::lemma_files_grow(plan.entries@, i + 1, n);
    super::lemma_files(plan.entries@, n);
}

/// No two entries write the same staging file.
pub proof fn law_staged_files_are_distinct(plan: &MountPlan, i: int, j: int)
    requires
        0 <= i < j < plan.entries@.len(),
        plan.entries@[i] is File,
    ensures
        super::files(plan.entries@, i) < super::files(plan.entries@, j),
{
    super::lemma_files_grow(plan.entries@, i + 1, j);
}

/// Every setup ends: it performs no more than a fixed number of operations for
/// each entry, and some more.
pub proof fn law_setup_ends(plan: &MountPlan, replies: Seq<Result<(), Errno>>)
    requires
        super::is_markable(plan),
        run(plan, replies) is Performing,
    ensures
        replies.len() < (4 + 2 * plan.entries@.len()) * MAX_OPS,
{
    lemma_progress(plan, replies);
    lemma_place(plan, replies);
    super::lemma_files(plan.entries@, plan.entries@.len() as int);
    if let MountState::Performing { section, index } = run(plan, replies) {
        lemma_section_len(plan, section);
        assert(rank(plan, section) <= 3 + 2 * plan.entries@.len());
    }
}

proof fn lemma_section_len(plan: &MountPlan, section: Section)
    ensures
        super::section_ops(plan, section).len() <= MAX_OPS,
{
}

proof fn lemma_progress(plan: &MountPlan, replies: Seq<Result<(), Errno>>)
    requires
        super::is_markable(plan),
    ensures
        run(plan, replies) matches MountState::Performing { section, index } ==> replies.len()
            <= rank(plan, section) * MAX_OPS + index,
    decreases replies.len(),
{
    if replies.len() > 0 {
        let before = replies.drop_last();
        lemma_progress(plan, before);
        lemma_place(plan, before);
        if let MountState::Performing { section, index } = run(plan, before) {
            lemma_next(plan, section, index as int);
            lemma_section_len(plan, section);
        }
    }
}

/// Whether `command` is what a setup of `plan` does next after the given results.
pub open spec fn does_next(
    plan: &MountPlan,
    replies: Seq<Result<(), Errno>>,
    command: MountCommand,
) -> bool {
    super::is_command(plan, run(plan, replies), command)
}

/// Whether the setup was told to perform `op`, and nothing else, as its operation
/// number `k`, and it succeeded.
pub open spec fn did_at(
    plan: &MountPlan,
    replies: Seq<Result<(), Errno>>,
    op: Op,
    k: int,
) -> bool {
    &&& 0 <= k < replies.len()
    &&& replies[k] is Ok
    &&& forall|command: MountCommand| #[trigger]
        does_next(plan, replies.take(k), command) ==> command == MountCommand::Perform(op)
}

/// Whether the setup has performed `op` with success.
pub open spec fn did(plan: &MountPlan, replies: Seq<Result<(), Errno>>, op: Op) -> bool {
    exists|k: int| #[trigger] did_at(plan, replies, op, k)
}

proof fn lemma_did(
    plan: &MountPlan,
    replies: Seq<Result<(), Errno>>,
    section: Section,
    index: int,
)
    requires
        performed(plan, replies, section, index),
        !(super::section_ops(plan, section)[index] is Mkdir),
        super::section_ops(plan, section)[index] matches Op::Unlink { required, .. } ==> required,
    ensures
        did(plan, replies, super::section_ops(plan, section)[index]),
{
    let k = choose|k: int| performed_at(plan, replies, section, index, k);
    assert(did_at(plan, replies, super::section_ops(plan, section)[index], k));
}

/// A setup that succeeds has made everything private first, laid down the managed
/// `/dev`, moved into the new root, let go of the old one, and ended in the new one.
pub proof fn law_success_ends_in_the_new_root(plan: &MountPlan, replies: Seq<Result<(), Errno>>)
    requires
        super::is_markable(plan),
        does_next(plan, replies, MountCommand::Done),
    ensures
        did(
            plan,
            replies,
            Op::SetAttr {
                at: Handle::Cwd,
                path: Path::Slash,
                flags: 0x8000,
                attr: MountAttr { attr_set: 0, propagation: 0x40000 },
            },
        ),
        did(plan, replies, Op::SetupDev),
        did(plan, replies, Op::EnterRoot),
        did(plan, replies, Op::PivotRoot { new_root: Path::Dot, put_old: Path::Dot }),
        did(plan, replies, Op::Unmount { path: Path::Dot, flags: 2 }),
        did(plan, replies, Op::ChangeDir { path: Path::Slash }),
{
    law_done_means_everything(plan, replies, Section::Root, 0);
    lemma_did(plan, replies, Section::Root, 0);
    law_done_means_everything(plan, replies, Section::Dev, 0);
    lemma_did(plan, replies, Section::Dev, 0);
    law_done_means_everything(plan, replies, Section::Pivot, 0);
    lemma_did(plan, replies, Section::Pivot, 0);
    law_done_means_everything(plan, replies, Section::Pivot, 1);
    lemma_did(plan, replies, Section::Pivot, 1);
    law_done_means_everything(plan, replies, Section::Pivot, 2);
    lemma_did(plan, replies, Section::Pivot, 2);
    law_done_means_everything(plan, replies, Section::Finish, 2);
    lemma_did(plan, replies, Section::Finish, 2);
}

/// The number of entries before number `i` that are files.
pub open spec fn files_before(plan: &MountPlan, i: int) -> nat {
    plan.entries@.take(i).filter(|entry: MountEntry| entry is File).len()
}

proof fn lemma_files_before(plan: &MountPlan, i: int)
    requires
        0 <= i <= plan.entries@.len(),
    ensures
        files_before(plan, i) == super::files(plan.entries@, i),
    decreases i,
{
    reveal(Seq::filter);
    if i > 0 {
        lemma_files_before(plan, i - 1);
        assert(plan.entries@.take(i).drop_last() =~= plan.entries@.take(i - 1));
        assert(plan.entries@.take(i).last() == plan.entries@[i - 1]);
    }
}

/// A setup that succeeds has carried out every entry of the plan: every operation that
/// the entry takes, while it was at that entry, with a staging name that no earlier
/// file has.
pub proof fn law_every_entry_is_mounted(
    plan: &MountPlan,
    replies: Seq<Result<(), Errno>>,
    i: usize,
    index: usize,
    r: OpList,
    j: int,
)
    requires
        super::is_markable(plan),
        does_next(plan, replies, MountCommand::Done),
        i < plan.entries@.len(),
        index == files_before(plan, i as int),
        call_ensures(super::ops::process_mount_entry, (&plan.entries@[i as int], index), r),
        0 <= j < r@.len(),
    ensures
        exists|k: int| #[trigger]
            did_at(plan, replies, r@[j], k) && run(plan, replies.take(k)) == (
            MountState::Performing { section: Section::Entry(i), index: j as usize }),
{
    lemma_files_before(plan, i as int);
    let section = Section::Entry(i);
    let ops = super::section_ops(plan, section);
    assert(r@ == ops);
    lemma_section_len(plan, section);
    lemma_entry_is_plain(plan.entries@[i as int], index, j);
    law_done_means_everything(plan, replies, section, j);
    let k = choose|k: int| performed_at(plan, replies, section, j, k);
    assert(did_at(plan, replies, r@[j], k));
}

/// The entries are carried out in the order of the plan, after the managed `/dev` is
/// there and before the root changes; and every staging file goes after that.
pub proof fn law_entries_come_in_order(
    plan: &MountPlan,
    replies: Seq<Result<(), Errno>>,
    i: usize,
    index: usize,
    r: OpList,
    j: int,
    op: Op,
)
    requires
        super::is_markable(plan),
        i < plan.entries@.len(),
        index == files_before(plan, i as int),
        call_ensures(super::ops::process_mount_entry, (&plan.entries@[i as int], index), r),
        0 <= j < r@.len(),
        does_next(plan, replies, MountCommand::Perform(op)),
    ensures
        run(plan, replies) matches MountState::Performing { section, index: at } ==> {
            &&& section is Entry ==> did(plan, replies, Op::SetupDev)
            &&& section matches Section::Entry(later) ==> (later > i || later == i && at > j
                ==> did(plan, replies, r@[j]))
            &&& op is EnterRoot || op is PivotRoot ==> did(plan, replies, r@[j])
            &&& op matches Op::Unlink { .. } ==> did(
                plan,
                replies,
                Op::PivotRoot { new_root: Path::Dot, put_old: Path::Dot },
            )
        },
{
    lemma_files_before(plan, i as int);
    let entry = Section::Entry(i);
    assert(r@ == super::section_ops(plan, entry));
    lemma_section_len(plan, entry);
    lemma_place(plan, replies);
    lemma_entry_is_plain(plan.entries@[i as int], index, j);
    if let MountState::Performing { section, index: at } = run(plan, replies) {
        if let Section::Entry(later) = section {
            law_earlier_operations_performed(plan, replies, section, at, Section::Dev, 0);
            lemma_did(plan, replies, Section::Dev, 0);
            if later > i || later == i && at > j {
                law_earlier_operations_performed(plan, replies, section, at, entry, j);
                lemma_did(plan, replies, entry, j);
            }
            lemma_entry_is_plain(
                plan.entries@[later as int],
                super::files(plan.entries@, later as int) as usize,
                at as int,
            );
        }
        if op is EnterRoot || op is PivotRoot {
            assert(section is Pivot);
            law_earlier_operations_performed(plan, replies, section, at, entry, j);
            lemma_did(plan, replies, entry, j);
        }
        if op is Unlink {
            assert(section is Cleanup || section is Finish);
            super::lemma_files(plan.entries@, plan.entries@.len() as int);
            law_earlier_operations_performed(plan, replies, section, at, Section::Pivot, 1);
            lemma_did(plan, replies, Section::Pivot, 1);
        }
    }
}

/// A setup that succeeds has removed a staging file for each file of the plan.
pub proof fn law_every_staging_file_is_removed(
    plan: &MountPlan,
    replies: Seq<Result<(), Errno>>,
    index: usize,
)
    requires
        super::is_markable(plan),
        does_next(plan, replies, MountCommand::Done),
        index < files_before(plan, plan.entries@.len() as int),
    ensures
        did(
            plan,
            replies,
            Op::Unlink {
                at: Handle::Staging,
                path: Path::StagingName(index),
                flags: 0,
                required: true,
            },
        ),
{
    lemma_files_before(plan, plan.entries@.len() as int);
    law_done_means_everything(plan, replies, Section::Cleanup(index), 0);
    lemma_did(plan, replies, Section::Cleanup(index), 0);
}

/// An operation that fails ends the setup with its error, unless it made a directory
/// that was there already or removed what may stay; the mark says where: nothing for
/// the new root, two thousand for `/dev`, a thousand and its number for an entry, and
/// three thousand for what comes after.
pub proof fn law_where_a_setup_failed(
    plan: &MountPlan,
    replies: Seq<Result<(), Errno>>,
    op: Op,
    err: Errno,
    command: MountCommand,
)
    requires
        super::is_markable(plan),
        does_next(plan, replies, MountCommand::Perform(op)),
        !(op is Mkdir && err.0 == EEXIST),
        op matches Op::Unlink { required, .. } ==> required,
        does_next(plan, replies.push(Err(err)), command),
    ensures
        command matches MountCommand::Failed(error) && error.errno == err && match run(
            plan,
            replies,
        ) {
            MountState::Performing { section: Section::Root, .. } => error.detail == 0,
            MountState::Performing { section: Section::Dev, .. } => error.detail == 2000,
            MountState::Performing { section: Section::Entry(i), .. } => error.detail == 1000 + i,
            _ => error.detail == 3000,
        },
        op is SetupDev ==> command->Failed_0.detail == 2000,
        op is PivotRoot || op is ChangeDir || op is Unlink ==> command->Failed_0.detail == 3000,
{
    assert(replies.push(Err::<(), Errno>(err)).drop_last() =~= replies);
    lemma_place(plan, replies);
    if let MountState::Performing { section: Section::Entry(i), index } = run(plan, replies) {
        let files = super::files(plan.entries@, i as int) as usize;
        lemma_entry_is_plain(plan.entries@[i as int], files, index as int);
    }
}

/// A setup goes on after an operation that succeeded, and after one whose failure does
/// not matter: it ends there only because it has come to its end, or because a path
/// of the next operation is too long.
pub proof fn law_a_setup_goes_on(
    plan: &MountPlan,
    replies: Seq<Result<(), Errno>>,
    op: Op,
    reply: Result<(), Errno>,
    command: MountCommand,
)
    requires
        super::is_markable(plan),
        does_next(plan, replies, MountCommand::Perform(op)),
        reply is Ok || op is Mkdir && reply == Err::<(), Errno>(Errno(EEXIST)) || (op matches
            Op::Unlink { required, .. } && !required),
        does_next(plan, replies.push(reply), command),
    ensures
        command is Done ==> op == (Op::ChangeDir { path: Path::Slash }),
        op is ChangeDir ==> command is Done,
        command matches MountCommand::Failed(error) ==> error.errno == Errno(ENAMETOOLONG),
{
    assert(replies.push(reply).drop_last() =~= replies);
    lemma_place(plan, replies);
    if let MountState::Performing { section, index } = run(plan, replies) {
        lemma_next(plan, section, index as int);
        law_failure_is_explained(plan, section, index, reply);
        if let Section::Entry(i) = section {
            lemma_entry_is_plain(
                plan.entries@[i as int],
                super::files(plan.entries@, i as int) as usize,
                index as int,
            );
        }
    }
}

/// Whether an operation is none of those that only the setup as a whole takes.
spec fn is_plain(op: Op) -> bool {
    !(op is Mkdir || op is Unlink || op is EnterRoot || op is PivotRoot || op is SetupDev
        || op is ChangeDir)
}

spec fn all_plain(ops: Seq<Op>) -> bool {
    forall|j: int| 0 <= j < ops.len() ==> is_plain(#[trigger] ops[j])
}

proof fn lemma_plain_concat(a: Seq<Op>, b: Seq<Op>)
    requires
        all_plain(a),
        all_plain(b),
    ensures
        all_plain(a + b),
{
    let ops = a + b;
    assert forall|j: int| 0 <= j < ops.len() implies is_plain(#[trigger] ops[j]) by {
        if j < a.len() {
            assert(is_plain(a[j]));
        } else {
            assert(is_plain(b[j - a.len()]));
        }
    }
}

proof fn lemma_mount_point_is_plain(dst: ZStr, is_dir: bool)
    ensures
        all_plain(super::ops::mount_point_ops(dst, is_dir)),
{
    let parents = super::ops::parent_dirs_ops(dst);
    lemma_plain_concat(parents, seq![Op::CreateFile { path: Path::Given(dst) }]);
}

proof fn lemma_attach_is_plain(dst: ZStr, read_only: bool, whole: bool)
    ensures
        all_plain(super::ops::attach_ops(dst, read_only, whole)),
{
}

proof fn lemma_source_is_plain(bind: BindMount)
    ensures
        all_plain(super::ops::source_ops(bind)),
{
}

proof fn lemma_filesystem_is_plain(dst: ZStr, fs: FsType, options: Seq<Op>, read_only: bool)
    requires
        all_plain(options),
    ensures
        all_plain(super::ops::filesystem_ops(dst, fs, options, read_only)),
{
    let first = seq![Op::MkdirAll { path: Path::Given(dst) }, Op::FsOpen(fs)];
    let create = seq![Op::FsConfigCreate, Op::FsMount];
    assert(all_plain(first));
    assert(all_plain(create));
    lemma_attach_is_plain(dst, read_only, false);
    lemma_plain_concat(first, options);
    lemma_plain_concat(first + options, create);
    lemma_plain_concat(
        first + options + create,
        super::ops::attach_ops(dst, read_only, false),
    );
}

proof fn lemma_options_are_plain(a: FsKey, x: Option<FsValue>, b: FsKey, y: Option<FsValue>)
    ensures
        all_plain(super::ops::option_ops(a, x) + super::ops::option_ops(b, y)),
{
}

proof fn lemma_entry_is_plain(entry: MountEntry, index: usize, j: int)
    requires
        0 <= j < super::ops::entry_ops(entry, index).len(),
    ensures
        is_plain(super::ops::entry_ops(entry, index)[j]),
{
    match entry {
        MountEntry::Bind(bind) => {
            let point = super::ops::mount_point_ops(bind.dst_rel, bind.src_is_dir);
            let source = super::ops::source_ops(bind);
            lemma_mount_point_is_plain(bind.dst_rel, bind.src_is_dir);
            lemma_source_is_plain(bind);
            lemma_attach_is_plain(bind.dst_rel, bind.read_only, bind.src_is_dir);
            lemma_plain_concat(point, source);
            lemma_plain_concat(
                point + source,
                super::ops::attach_ops(bind.dst_rel, bind.read_only, bind.src_is_dir),
            );
        },
        MountEntry::Tmpfs(tmpfs) => {
            let size = super::ops::size_value(tmpfs);
            let mode = super::ops::mode_value(tmpfs);
            lemma_options_are_plain(FsKey::Size, size, FsKey::Mode, mode);
            lemma_filesystem_is_plain(
                tmpfs.dst_rel,
                FsType::Tmpfs,
                super::ops::option_ops(FsKey::Size, size) + super::ops::option_ops(
                    FsKey::Mode,
                    mode,
                ),
                tmpfs.read_only,
            );
        },
        MountEntry::Proc(shown) => {
            let subset = super::ops::subset_value(shown);
            let hidepid = super::ops::hidepid_value(shown);
            lemma_options_are_plain(FsKey::Subset, subset, FsKey::HidePid, hidepid);
            lemma_filesystem_is_plain(
                shown.dst_rel,
                FsType::Proc,
                super::ops::option_ops(FsKey::Subset, subset) + super::ops::option_ops(
                    FsKey::HidePid,
                    hidepid,
                ),
                false,
            );
        },
        MountEntry::Mqueue(mqueue) => {
            lemma_filesystem_is_plain(mqueue.dst_rel, FsType::Mqueue, seq![], false);
        },
        MountEntry::File(file) => {
            let path = Path::StagingName(index);
            let write = seq![Op::WriteFile { path, content: file.content }];
            let point = super::ops::mount_point_ops(file.dst_rel, false);
            let open = seq![
                Op::OpenTree { at: Handle::Staging, path, flags: super::ops::CLONE_ONE },
            ];
            assert(all_plain(write));
            assert(all_plain(open));
            lemma_mount_point_is_plain(file.dst_rel, false);
            lemma_attach_is_plain(file.dst_rel, file.read_only, false);
            lemma_plain_concat(write, point);
            lemma_plain_concat(write + point, open);
            lemma_plain_concat(
                write + point + open,
                super::ops::attach_ops(file.dst_rel, file.read_only, false),
            );
        },
    }
    assert(all_plain(super::ops::entry_ops(entry, index)));
}

/// Whatever the plan is, the new root is a tmpfs of its own at a path of its own, with
/// the two helper directories in it, built after everything was made private; the
/// change of the root enters it, puts the old root under it and lets the old root go;
/// and the end removes the helper directories and stands in the root.
pub proof fn law_frame_of_every_setup(plan: &MountPlan)
    ensures
        super::section_ops(plan, Section::Root) == seq![
            Op::SetAttr {
                at: Handle::Cwd,
                path: Path::Slash,
                flags: 0x8000,
                attr: MountAttr { attr_set: 0, propagation: 0x40000 },
            },
            Op::Mkdir { path: Path::NewRoot, mode: 0o755 },
            Op::FsOpen(FsType::Tmpfs),
            Op::FsConfigCreate,
            Op::FsMount,
            Op::AttachAt { path: Path::NewRoot },
            Op::OpenDir { at: Handle::Cwd, path: Path::NewRoot, into: Handle::Root },
            Op::Release,
            Op::MkdirAll { path: Path::PutOld },
            Op::MkdirAll { path: Path::Content },
            Op::OpenDir { at: Handle::Root, path: Path::Content, into: Handle::Staging },
        ],
        super::section_ops(plan, Section::Dev) == seq![Op::SetupDev],
        super::section_ops(plan, Section::Pivot) == seq![
            Op::EnterRoot,
            Op::PivotRoot { new_root: Path::Dot, put_old: Path::Dot },
            Op::Unmount { path: Path::Dot, flags: 2 },
        ],
        super::section_ops(plan, Section::Finish) == seq![
            Op::Unlink {
                at: Handle::Cwd,
                path: Path::PutOldAbs,
                flags: 0x200,
                required: false,
            },
            Op::Unlink {
                at: Handle::Cwd,
                path: Path::ContentAbs,
                flags: 0x200,
                required: false,
            },
            Op::ChangeDir { path: Path::Slash },
        ],
{
}

/// A setup that is at a part of the plan has performed every part before it, and all
/// of each: the new root, `/dev`, the entries one after the other, the change of the
/// root, and the staging files one after the other.
pub proof fn law_parts_come_in_order(
    plan: &MountPlan,
    replies: Seq<Result<(), Errno>>,
    section: Section,
    index: usize,
    earlier: Section,
    j: int,
)
    requires
        super::is_markable(plan),
        run(plan, replies) == (MountState::Performing { section, index }),
        0 <= j < super::section_ops(plan, earlier).len(),
        match earlier {
            Section::Root => !(section is Root),
            Section::Dev => !(section is Root) && !(section is Dev),
            Section::Entry(i) => i < plan.entries@.len() && match section {
                Section::Root | Section::Dev => false,
                Section::Entry(later) => i < later,
                _ => true,
            },
            Section::Pivot => section is Cleanup || section is Finish,
            Section::Cleanup(i) => i < files_before(plan, plan.entries@.len() as int)
                && match section {
                Section::Cleanup(later) => i < later,
                Section::Finish => true,
                _ => false,
            },
            Section::Finish => false,
        },
    ensures
        performed(plan, replies, earlier, j),
{
    lemma_files_before(plan, plan.entries@.len() as int);
    super::lemma_files(plan.entries@, plan.entries@.len() as int);
    lemma_place(plan, replies);
    law_earlier_operations_performed(plan, replies, section, index, earlier, j);
}

/// A setup starts with the first of its operations.
pub proof fn law_where_a_setup_starts(plan: &MountPlan, r: (super::MountSetup, MountCommand))
    requires
        super::is_markable(plan),
        call_ensures(super::MountSetup::start, (plan,), r),
    ensures
        r.0.state() == run(plan, seq![]),
        does_next(plan, seq![], r.1),
        r.1 == MountCommand::Perform(
            Op::SetAttr {
                at: Handle::Cwd,
                path: Path::Slash,
                flags: 0x8000,
                attr: MountAttr { attr_set: 0, propagation: 0x40000 },
            },
        ),
{
}

} // verus!
