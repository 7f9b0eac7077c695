//! The operations that each part of the filesystem setup is made of.

use vstd::prelude::*;

use super::path::{find_last_slash, FsKey, FsType, FsValue, Path, MAX_PATH_BYTES};
use crate::child::{
    BindMount, BindMountSource, FileMount, MountEntry, MqueueMount, ProcMount, TmpfsMount,
};
use crate::error::Errno;
use crate::sys::{
    AT_EMPTY_PATH, AT_RECURSIVE, AT_REMOVEDIR, EEXIST, ENAMETOOLONG, MNT_DETACH,
    MOUNT_ATTR_RDONLY, MS_PRIVATE, OPEN_TREE_CLOEXEC, OPEN_TREE_CLONE,
};
use crate::zstr::ZStr;

verus! {

/// Mode of the directory in which the new root is assembled.
pub const NEW_ROOT_MODE: u32 = 0o755;

/// `open_tree` flags that clone a whole tree.
pub const CLONE_TREE: u32 = OPEN_TREE_CLONE | OPEN_TREE_CLOEXEC | AT_RECURSIVE;

/// `open_tree` flags that clone a single mount.
pub const CLONE_ONE: u32 = OPEN_TREE_CLONE | OPEN_TREE_CLOEXEC;

/// `mount_setattr` flags for a tree that is held by a descriptor.
pub const WHOLE_TREE: u32 = AT_EMPTY_PATH | AT_RECURSIVE;

/// A descriptor that the setup works with.
#[derive(Clone, Copy, Debug, PartialEq, Eq, Structural)]
pub enum Handle {
    /// The current directory.
    Cwd,
    /// The new root.
    Root,
    /// The directory of staging files.
    Staging,
    /// The filesystem that is being configured.
    Filesystem,
    /// The mount that is being built.
    Tree,
    /// A tree that was cloned before the setup.
    Prepared(i32),
}

/// What `mount_setattr` changes.
#[derive(Clone, Copy, Debug, PartialEq, Eq, Structural)]
pub struct MountAttr {
    pub attr_set: u64,
    pub propagation: u64,
}

impl MountAttr {
    /// The mount becomes read-only.
    pub open spec fn read_only() -> MountAttr {
        MountAttr { attr_set: MOUNT_ATTR_RDONLY, propagation: 0 }
    }

    /// Nothing that is mounted or unmounted below is passed on.
    pub open spec fn private() -> MountAttr {
        MountAttr { attr_set: 0, propagation: MS_PRIVATE }
    }
}

/// One operation of the filesystem setup.
///
/// Each is a system call, or a few that succeed or fail as one.
#[derive(Clone, Copy, Debug)]
pub enum Op<'a> {
    /// `mount_setattr(at, path, flags, attr)`.
    SetAttr { at: Handle, path: Path<'a>, flags: u32, attr: MountAttr },
    /// `mkdir(path, mode)`.
    Mkdir { path: Path<'a>, mode: u32 },
    /// `fsopen(fs)`; the result becomes [`Handle::Filesystem`].
    FsOpen(FsType),
    /// `fsconfig(FSCONFIG_SET_STRING, key, value)` on the filesystem.
    FsConfigString { key: FsKey, value: FsValue },
    /// `fsconfig(FSCONFIG_CMD_CREATE)` on the filesystem. A failure is told on
    /// standard error, with [`super::report_fsconfig_failure`].
    FsConfigCreate,
    /// `fsmount(..)` of the filesystem; the result becomes [`Handle::Tree`].
    FsMount,
    /// `move_mount(..)` of the mount to `path`.
    AttachAt { path: Path<'a> },
    /// `move_mount(..)` of `from` to `dst` in the new root.
    Attach { from: Handle, dst: Path<'a> },
    /// Open the directory `path` at `at`; the result becomes `into`.
    OpenDir { at: Handle, path: Path<'a>, into: Handle },
    /// Create the directory `path` in the new root, with its parents.
    MkdirAll { path: Path<'a> },
    /// Create the file `path` in the new root, if it is not there.
    CreateFile { path: Path<'a> },
    /// Create the staging file `path` with the given content.
    WriteFile { path: Path<'a>, content: &'a [u8] },
    /// `open_tree(at, path, flags)`; the result becomes [`Handle::Tree`].
    OpenTree { at: Handle, path: Path<'a>, flags: u32 },
    /// `fchdir(..)` to the new root.
    EnterRoot,
    /// `pivot_root(new_root, put_old)`.
    PivotRoot { new_root: Path<'a>, put_old: Path<'a> },
    /// `umount2(path, flags)`.
    Unmount { path: Path<'a>, flags: u32 },
    /// `unlinkat(at, path, flags)`. Unless it is required, it may fail.
    Unlink { at: Handle, path: Path<'a>, flags: u32, required: bool },
    /// `chdir(path)`.
    ChangeDir { path: Path<'a> },
    /// Lay down the managed `/dev` in the new root.
    SetupDev,
    /// Close [`Handle::Filesystem`] and [`Handle::Tree`], as far as they are open.
    Release,
    /// Nothing can be done: the setup fails here.
    Refuse(Errno),
}

impl<'a> Op<'a> {
    /// Whether the setup goes on although the operation failed with `err`.
    pub open spec fn tolerates(self, err: Errno) -> bool {
        match self {
            Op::Mkdir { .. } => err.0 == EEXIST,
            Op::Unlink { required, .. } => !required,
            _ => false,
        }
    }

    /// The paths that the operation names.
    pub open spec fn paths(self) -> Seq<Path<'a>> {
        match self {
            Op::SetAttr { path, .. } => seq![path],
            Op::Mkdir { path, .. } => seq![path],
            Op::AttachAt { path } => seq![path],
            Op::Attach { dst, .. } => seq![dst],
            Op::OpenDir { path, .. } => seq![path],
            Op::MkdirAll { path } => seq![path],
            Op::CreateFile { path } => seq![path],
            Op::WriteFile { path, .. } => seq![path],
            Op::OpenTree { path, .. } => seq![path],
            Op::PivotRoot { new_root, put_old } => seq![new_root, put_old],
            Op::Unmount { path, .. } => seq![path],
            Op::Unlink { path, .. } => seq![path],
            Op::ChangeDir { path } => seq![path],
            _ => seq![],
        }
    }

    /// Whether the setup goes on although the operation failed with `err`.
    pub fn may_fail_with(&self, err: Errno) -> (r: bool)
        ensures
            r == self.tolerates(err),
    {
        match self {
            Op::Mkdir { .. } => err.0 == EEXIST,
            Op::Unlink { required, .. } => !*required,
            _ => false,
        }
    }
}

/// `ops`, if `wanted`.
pub open spec fn when<'a>(wanted: bool, ops: Seq<Op<'a>>) -> Seq<Op<'a>> {
    if wanted {
        ops
    } else {
        seq![]
    }
}

/// The new root: a tmpfs of its own, with the directory that the old root could
/// be put in and the directory of staging files. Before that, the whole mount
/// tree is made private, so that nothing is passed back to the parent.
pub open spec fn root_ops<'a>() -> Seq<Op<'a>> {
    seq![
        Op::SetAttr {
            at: Handle::Cwd,
            path: Path::Slash,
            flags: AT_RECURSIVE,
            attr: MountAttr::private(),
        },
        Op::Mkdir { path: Path::NewRoot, mode: NEW_ROOT_MODE },
        Op::FsOpen(FsType::Tmpfs),
        Op::FsConfigCreate,
        Op::FsMount,
        Op::AttachAt { path: Path::NewRoot },
        Op::OpenDir { at: Handle::Cwd, path: Path::NewRoot, into: Handle::Root },
        Op::Release,
        Op::MkdirAll { path: Path::PutOld },
        Op::MkdirAll { path: Path::Content },
        Op::OpenDir { at: Handle::Root, path: Path::Content, into: Handle::Staging },
    ]
}

/// The directories above `path`, in the new root: none where it has no slash,
/// or none but a leading one.
pub open spec fn parent_dirs_ops<'a>(path: ZStr<'a>) -> Seq<Op<'a>> {
    let end = super::path::last_slash(path@);
    if end <= 0 {
        seq![]
    } else if end + 1 > MAX_PATH_BYTES {
        seq![Op::Refuse(Errno(ENAMETOOLONG))]
    } else {
        seq![Op::MkdirAll { path: Path::ParentOf(path) }]
    }
}

/// What a mount is attached to: a directory for a directory, and a file for
/// anything else.
pub open spec fn mount_point_ops<'a>(dst: ZStr<'a>, is_dir: bool) -> Seq<Op<'a>> {
    if is_dir {
        seq![Op::MkdirAll { path: Path::Given(dst) }]
    } else {
        parent_dirs_ops(dst) + seq![Op::CreateFile { path: Path::Given(dst) }]
    }
}

/// The mount held by `at` becomes read-only, the mounts in it too if `whole`.
pub open spec fn read_only_op<'a>(at: Handle, whole: bool) -> Op<'a> {
    Op::SetAttr {
        at,
        path: Path::Nothing,
        flags: if whole {
            WHOLE_TREE
        } else {
            AT_EMPTY_PATH
        },
        attr: MountAttr::read_only(),
    }
}

/// The temporary attachment of a prepared tree is taken away again.
pub open spec fn detach_op<'a>(dst: ZStr<'a>) -> Op<'a> {
    if Path::BelowNewRoot(dst).fits() {
        Op::Unmount { path: Path::BelowNewRoot(dst), flags: MNT_DETACH }
    } else {
        Op::Refuse(Errno(ENAMETOOLONG))
    }
}

/// The tree that a bind mount shows. A path is cloned. A prepared tree is
/// attached for a moment and cloned from there, so that what remains belongs to
/// the child's namespace; it is made private first, so that detaching it cannot
/// unmount a peer of the source, and read-only if the bind is.
pub open spec fn source_ops<'a>(entry: BindMount<'a>) -> Seq<Op<'a>> {
    match entry.source {
        BindMountSource::Path(path) => seq![
            Op::OpenTree { at: Handle::Cwd, path: Path::Given(path), flags: CLONE_TREE },
        ],
        BindMountSource::Prepared(prepared) => {
            let at = Handle::Prepared(prepared.spec_fd());
            seq![
                Op::SetAttr {
                    at,
                    path: Path::Nothing,
                    flags: WHOLE_TREE,
                    attr: MountAttr::private(),
                },
            ] + when(entry.read_only, seq![read_only_op(at, entry.src_is_dir)]) + seq![
                Op::Attach { from: at, dst: Path::Given(entry.dst_rel) },
                Op::OpenTree {
                    at: Handle::Root,
                    path: Path::Given(entry.dst_rel),
                    flags: CLONE_TREE,
                },
                detach_op(entry.dst_rel),
            ]
        },
    }
}

/// The mount is attached at `dst`, read-only first if it is to be, so that the
/// target is never seen writable.
pub open spec fn attach_ops<'a>(dst: ZStr<'a>, read_only: bool, whole: bool) -> Seq<Op<'a>> {
    when(read_only, seq![read_only_op(Handle::Tree, whole)]) + seq![
        Op::Attach { from: Handle::Tree, dst: Path::Given(dst) },
        Op::Release,
    ]
}

/// A bind mount.
pub open spec fn bind_ops<'a>(entry: BindMount<'a>) -> Seq<Op<'a>> {
    mount_point_ops(entry.dst_rel, entry.src_is_dir) + source_ops(entry) + attach_ops(
        entry.dst_rel,
        entry.read_only,
        entry.src_is_dir,
    )
}

/// Sets option `key` to `value`, if there is one.
pub open spec fn option_ops<'a>(key: FsKey, value: Option<FsValue>) -> Seq<Op<'a>> {
    match value {
        Some(value) => seq![Op::FsConfigString { key, value }],
        None => seq![],
    }
}

/// A filesystem of its own at `dst`.
pub open spec fn filesystem_ops<'a>(
    dst: ZStr<'a>,
    fs: FsType,
    options: Seq<Op<'a>>,
    read_only: bool,
) -> Seq<Op<'a>> {
    seq![Op::MkdirAll { path: Path::Given(dst) }, Op::FsOpen(fs)] + options + seq![
        Op::FsConfigCreate,
        Op::FsMount,
    ] + attach_ops(dst, read_only, false)
}

/// The size that a tmpfs is given.
pub open spec fn size_value(entry: TmpfsMount) -> Option<FsValue> {
    match entry.size_bytes {
        Some(size) => Some(FsValue::Decimal(size)),
        None => None,
    }
}

/// The mode that the root of a tmpfs is given.
pub open spec fn mode_value(entry: TmpfsMount) -> Option<FsValue> {
    match entry.mode {
        Some(mode) => Some(FsValue::Octal(mode)),
        None => None,
    }
}

/// What a procfs shows.
pub open spec fn subset_value(entry: ProcMount) -> Option<FsValue> {
    match entry.subset {
        Some(subset) => Some(FsValue::Subset(subset)),
        None => None,
    }
}

/// Whom a procfs hides.
pub open spec fn hidepid_value(entry: ProcMount) -> Option<FsValue> {
    match entry.hidepid {
        Some(hidepid) => Some(FsValue::HidePid(hidepid)),
        None => None,
    }
}

/// A tmpfs.
pub open spec fn tmpfs_ops<'a>(entry: TmpfsMount<'a>) -> Seq<Op<'a>> {
    filesystem_ops(
        entry.dst_rel,
        FsType::Tmpfs,
        option_ops(FsKey::Size, size_value(entry)) + option_ops(FsKey::Mode, mode_value(entry)),
        entry.read_only,
    )
}

/// A procfs.
pub open spec fn proc_ops<'a>(entry: ProcMount<'a>) -> Seq<Op<'a>> {
    filesystem_ops(
        entry.dst_rel,
        FsType::Proc,
        option_ops(FsKey::Subset, subset_value(entry)) + option_ops(
            FsKey::HidePid,
            hidepid_value(entry),
        ),
        false,
    )
}

/// A message-queue filesystem.
pub open spec fn mqueue_ops<'a>(entry: MqueueMount<'a>) -> Seq<Op<'a>> {
    filesystem_ops(entry.dst_rel, FsType::Mqueue, seq![], false)
}

/// A file with given content: written as staging file number `index`, and bound
/// from there.
pub open spec fn file_ops<'a>(entry: FileMount<'a>, index: usize) -> Seq<Op<'a>> {
    seq![Op::WriteFile { path: Path::StagingName(index), content: entry.content }]
        + mount_point_ops(entry.dst_rel, false) + seq![
        Op::OpenTree { at: Handle::Staging, path: Path::StagingName(index), flags: CLONE_ONE },
    ] + attach_ops(entry.dst_rel, entry.read_only, false)
}

/// One entry of the plan. `index` is the number of files among the entries
/// before it.
pub open spec fn entry_ops<'a>(entry: MountEntry<'a>, index: usize) -> Seq<Op<'a>> {
    match entry {
        MountEntry::Bind(bind) => bind_ops(bind),
        MountEntry::Tmpfs(tmpfs) => tmpfs_ops(tmpfs),
        MountEntry::Proc(proc_mount) => proc_ops(proc_mount),
        MountEntry::Mqueue(mqueue) => mqueue_ops(mqueue),
        MountEntry::File(file) => file_ops(file, index),
    }
}

/// The new root becomes the root, and the old one goes.
pub open spec fn pivot_ops<'a>() -> Seq<Op<'a>> {
    seq![
        Op::EnterRoot,
        Op::PivotRoot { new_root: Path::Dot, put_old: Path::Dot },
        Op::Unmount { path: Path::Dot, flags: MNT_DETACH },
    ]
}

/// Staging file number `index` is removed.
pub open spec fn cleanup_ops<'a>(index: usize) -> Seq<Op<'a>> {
    seq![
        Op::Unlink {
            at: Handle::Staging,
            path: Path::StagingName(index),
            flags: 0,
            required: true,
        },
    ]
}

/// The two helper directories are removed, if they can be, and the setup ends
/// in the new root.
pub open spec fn finish_ops<'a>() -> Seq<Op<'a>> {
    seq![
        Op::Unlink {
            at: Handle::Cwd,
            path: Path::PutOldAbs,
            flags: AT_REMOVEDIR,
            required: false,
        },
        Op::Unlink {
            at: Handle::Cwd,
            path: Path::ContentAbs,
            flags: AT_REMOVEDIR,
            required: false,
        },
        Op::ChangeDir { path: Path::Slash },
    ]
}

/// Most operations that a part of the setup is made of.
pub const MAX_OPS: usize = 16;

/// A short list of operations, without the heap.
#[derive(Clone, Copy, Debug)]
pub struct OpList<'a> {
    ops: [Op<'a>; MAX_OPS],
    len: usize,
}

impl<'a> View for OpList<'a> {
    type V = Seq<Op<'a>>;

    closed spec fn view(&self) -> Seq<Op<'a>> {
        self.ops@.take(self.len as int)
    }
}

impl<'a> OpList<'a> {
    #[verifier::type_invariant]
    closed spec fn within(self) -> bool {
        self.len <= MAX_OPS
    }

    fn new() -> (r: Self)
        ensures
            r@ == Seq::<Op<'a>>::empty(),
    {
        OpList { ops: [Op::Release; MAX_OPS], len: 0 }
    }

    fn push(&mut self, op: Op<'a>)
        requires
            old(self)@.len() < MAX_OPS,
        ensures
            final(self)@ == old(self)@.push(op),
    {
        proof {
            use_type_invariant(&*self);
        }
        let n: usize = self.len;
        let mut ops = self.ops;
        ops[n] = op;
        let r = OpList { ops, len: n + 1 };
        assert(r@ =~= old(self)@.push(op));
        *self = r;
    }

    /// How many operations there are.
    pub fn len(&self) -> (r: usize)
        ensures
            r == self@.len(),
            r <= MAX_OPS,
    {
        proof {
            use_type_invariant(self);
        }
        self.len
    }

    /// Operation number `i`.
    pub fn get(&self, i: usize) -> (r: Op<'a>)
        requires
            i < self@.len(),
        ensures
            r == self@[i as int],
    {
        proof {
            use_type_invariant(self);
        }
        self.ops[i]
    }
}

fn private_attr() -> (r: MountAttr)
    ensures
        r == MountAttr::private(),
{
    MountAttr { attr_set: 0, propagation: MS_PRIVATE }
}

fn read_only<'a>(at: Handle, whole: bool) -> (r: Op<'a>)
    ensures
        r == read_only_op::<'a>(at, whole),
{
    Op::SetAttr {
        at,
        path: Path::Nothing,
        flags: if whole {
            WHOLE_TREE
        } else {
            AT_EMPTY_PATH
        },
        attr: MountAttr { attr_set: MOUNT_ATTR_RDONLY, propagation: 0 },
    }
}

/// The operations of [`root_ops`].
pub fn setup_root<'a>() -> (r: OpList<'a>)
    ensures
        r@ == root_ops::<'a>(),
{
    let mut list = OpList::new();
    list.push(
        Op::SetAttr {
            at: Handle::Cwd,
            path: Path::Slash,
            flags: AT_RECURSIVE,
            attr: private_attr(),
        },
    );
    list.push(Op::Mkdir { path: Path::NewRoot, mode: NEW_ROOT_MODE });
    list.push(Op::FsOpen(FsType::Tmpfs));
    list.push(Op::FsConfigCreate);
    list.push(Op::FsMount);
    list.push(Op::AttachAt { path: Path::NewRoot });
    list.push(Op::OpenDir { at: Handle::Cwd, path: Path::NewRoot, into: Handle::Root });
    list.push(Op::Release);
    list.push(Op::MkdirAll { path: Path::PutOld });
    list.push(Op::MkdirAll { path: Path::Content });
    list.push(Op::OpenDir { at: Handle::Root, path: Path::Content, into: Handle::Staging });
    assert(list@ =~= root_ops::<'a>());
    list
}

/// Adds the operations of [`parent_dirs_ops`].
fn ensure_parent_dirs<'a>(list: &mut OpList<'a>, rel_path: ZStr<'a>)
    requires
        old(list)@.len() < MAX_OPS,
    ensures
        final(list)@ == old(list)@ + parent_dirs_ops(rel_path),
        final(list)@.len() <= old(list)@.len() + 1,
{
    let ghost before = list@;
    match find_last_slash(rel_path) {
        None => {
            assert(before + parent_dirs_ops(rel_path) =~= before);
        },
        Some(parent_end) => {
            if parent_end == 0 {
                assert(before + parent_dirs_ops(rel_path) =~= before);
            } else if parent_end > MAX_PATH_BYTES - 1 {
                list.push(Op::Refuse(Errno(ENAMETOOLONG)));
                assert(list@ =~= before + parent_dirs_ops(rel_path));
            } else {
                list.push(Op::MkdirAll { path: Path::ParentOf(rel_path) });
                assert(list@ =~= before + parent_dirs_ops(rel_path));
            }
        },
    }
}

/// Adds the operations of [`mount_point_ops`].
fn ensure_mount_point<'a>(list: &mut OpList<'a>, dst_rel: ZStr<'a>, src_is_dir: bool)
    requires
        old(list)@.len() + 2 <= MAX_OPS,
    ensures
        final(list)@ == old(list)@ + mount_point_ops(dst_rel, src_is_dir),
        final(list)@.len() <= old(list)@.len() + 2,
{
    let ghost before = list@;
    if src_is_dir {
        list.push(Op::MkdirAll { path: Path::Given(dst_rel) });
    } else {
        ensure_parent_dirs(list, dst_rel);
        list.push(Op::CreateFile { path: Path::Given(dst_rel) });
    }
    assert(list@ =~= before + mount_point_ops(dst_rel, src_is_dir));
}

/// Adds the operations of [`attach_ops`].
fn attach<'a>(list: &mut OpList<'a>, dst_rel: ZStr<'a>, is_read_only: bool, whole: bool)
    requires
        old(list)@.len() + 3 <= MAX_OPS,
    ensures
        final(list)@ == old(list)@ + attach_ops(dst_rel, is_read_only, whole),
{
    let ghost before = list@;
    if is_read_only {
        list.push(read_only(Handle::Tree, whole));
    }
    list.push(Op::Attach { from: Handle::Tree, dst: Path::Given(dst_rel) });
    list.push(Op::Release);
    assert(list@ =~= before + attach_ops(dst_rel, is_read_only, whole));
}

/// Whether the path of `dst_rel` below the new root fits the buffer.
fn fits_below_new_root(dst_rel: ZStr) -> (r: bool)
    ensures
        r == Path::BelowNewRoot(dst_rel).fits(),
{
    proof {
        reveal_strlit("/tmp/pnut-newroot");
        reveal_strlit("/");
        super::path::lemma_plain_text("/tmp/pnut-newroot"@);
        super::path::lemma_plain_text("/"@);
    }
    dst_rel.to_bytes().len() <= MAX_PATH_BYTES - 19
}

/// The operations of [`bind_ops`].
pub fn process_bind_mount<'a>(entry: &BindMount<'a>) -> (r: OpList<'a>)
    ensures
        r@ == bind_ops(*entry),
{
    let mut list = OpList::new();
    ensure_mount_point(&mut list, entry.dst_rel, entry.src_is_dir);
    let ghost before = list@;
    match entry.source {
        BindMountSource::Path(path) => {
            list.push(
                Op::OpenTree { at: Handle::Cwd, path: Path::Given(path), flags: CLONE_TREE },
            );
        },
        BindMountSource::Prepared(prepared) => {
            let at = Handle::Prepared(prepared.fd());
            list.push(
                Op::SetAttr { at, path: Path::Nothing, flags: WHOLE_TREE, attr: private_attr() },
            );
            if entry.read_only {
                list.push(read_only(at, entry.src_is_dir));
            }
            list.push(Op::Attach { from: at, dst: Path::Given(entry.dst_rel) });
            list.push(
                Op::OpenTree {
                    at: Handle::Root,
                    path: Path::Given(entry.dst_rel),
                    flags: CLONE_TREE,
                },
            );
            if fits_below_new_root(entry.dst_rel) {
                list.push(
                    Op::Unmount { path: Path::BelowNewRoot(entry.dst_rel), flags: MNT_DETACH },
                );
            } else {
                list.push(Op::Refuse(Errno(ENAMETOOLONG)));
            }
        },
    }
    assert(list@ =~= before + source_ops(*entry));
    attach(&mut list, entry.dst_rel, entry.read_only, entry.src_is_dir);
    assert(list@ =~= bind_ops(*entry));
    list
}

/// Adds the operations of [`option_ops`].
fn set_option<'a>(list: &mut OpList<'a>, key: FsKey, value: Option<FsValue>)
    requires
        old(list)@.len() < MAX_OPS,
    ensures
        final(list)@ == old(list)@ + option_ops::<'a>(key, value),
        final(list)@.len() <= old(list)@.len() + 1,
{
    let ghost before = list@;
    match value {
        Some(value) => {
            list.push(Op::FsConfigString { key, value });
        },
        None => {},
    }
    assert(list@ =~= before + option_ops::<'a>(key, value));
}

/// The operations of [`tmpfs_ops`].
pub fn process_tmpfs_mount<'a>(entry: &TmpfsMount<'a>) -> (r: OpList<'a>)
    ensures
        r@ == tmpfs_ops(*entry),
{
    let mut list = OpList::new();
    list.push(Op::MkdirAll { path: Path::Given(entry.dst_rel) });
    list.push(Op::FsOpen(FsType::Tmpfs));
    let size = match entry.size_bytes {
        Some(size) => Some(FsValue::Decimal(size)),
        None => None,
    };
    set_option(&mut list, FsKey::Size, size);
    let mode = match entry.mode {
        Some(mode) => Some(FsValue::Octal(mode)),
        None => None,
    };
    set_option(&mut list, FsKey::Mode, mode);
    list.push(Op::FsConfigCreate);
    list.push(Op::FsMount);
    attach(&mut list, entry.dst_rel, entry.read_only, false);
    assert(list@ =~= tmpfs_ops(*entry));
    list
}

/// The operations of [`proc_ops`].
pub fn process_proc_mount<'a>(entry: &ProcMount<'a>) -> (r: OpList<'a>)
    ensures
        r@ == proc_ops(*entry),
{
    let mut list = OpList::new();
    list.push(Op::MkdirAll { path: Path::Given(entry.dst_rel) });
    list.push(Op::FsOpen(FsType::Proc));
    let subset = match entry.subset {
        Some(subset) => Some(FsValue::Subset(subset)),
        None => None,
    };
    set_option(&mut list, FsKey::Subset, subset);
    let hidepid = match entry.hidepid {
        Some(hidepid) => Some(FsValue::HidePid(hidepid)),
        None => None,
    };
    set_option(&mut list, FsKey::HidePid, hidepid);
    list.push(Op::FsConfigCreate);
    list.push(Op::FsMount);
    attach(&mut list, entry.dst_rel, false, false);
    assert(list@ =~= proc_ops(*entry));
    list
}

/// The operations of [`mqueue_ops`].
pub fn process_mqueue_mount<'a>(entry: &MqueueMount<'a>) -> (r: OpList<'a>)
    ensures
        r@ == mqueue_ops(*entry),
{
    let mut list = OpList::new();
    list.push(Op::MkdirAll { path: Path::Given(entry.dst_rel) });
    list.push(Op::FsOpen(FsType::Mqueue));
    list.push(Op::FsConfigCreate);
    list.push(Op::FsMount);
    attach(&mut list, entry.dst_rel, false, false);
    assert(list@ =~= mqueue_ops(*entry));
    list
}

/// The operations of [`file_ops`].
pub fn process_file_mount<'a>(entry: &FileMount<'a>, index: usize) -> (r: OpList<'a>)
    ensures
        r@ == file_ops(*entry, index),
{
    let mut list = OpList::new();
    list.push(Op::WriteFile { path: Path::StagingName(index), content: entry.content });
    ensure_mount_point(&mut list, entry.dst_rel, false);
    list.push(
        Op::OpenTree { at: Handle::Staging, path: Path::StagingName(index), flags: CLONE_ONE },
    );
    attach(&mut list, entry.dst_rel, entry.read_only, false);
    assert(list@ =~= file_ops(*entry, index));
    list
}

/// The operations of [`entry_ops`].
pub fn process_mount_entry<'a>(entry: &MountEntry<'a>, index: usize) -> (r: OpList<'a>)
    ensures
        r@ == entry_ops(*entry, index),
{
    match entry {
        MountEntry::Bind(bind) => process_bind_mount(bind),
        MountEntry::Tmpfs(tmpfs) => process_tmpfs_mount(tmpfs),
        MountEntry::Proc(proc_mount) => process_proc_mount(proc_mount),
        MountEntry::Mqueue(mqueue) => process_mqueue_mount(mqueue),
        MountEntry::File(file) => process_file_mount(file, index),
    }
}

/// The operations of [`pivot_ops`].
pub fn pivot<'a>() -> (r: OpList<'a>)
    ensures
        r@ == pivot_ops::<'a>(),
{
    let mut list = OpList::new();
    list.push(Op::EnterRoot);
    list.push(Op::PivotRoot { new_root: Path::Dot, put_old: Path::Dot });
    list.push(Op::Unmount { path: Path::Dot, flags: MNT_DETACH });
    assert(list@ =~= pivot_ops::<'a>());
    list
}

/// The operations of [`cleanup_ops`].
pub fn cleanup_staging<'a>(index: usize) -> (r: OpList<'a>)
    ensures
        r@ == cleanup_ops::<'a>(index),
{
    let mut list = OpList::new();
    list.push(
        Op::Unlink {
            at: Handle::Staging,
            path: Path::StagingName(index),
            flags: 0,
            required: true,
        },
    );
    assert(list@ =~= cleanup_ops::<'a>(index));
    list
}

/// The operations of [`finish_ops`].
pub fn finish<'a>() -> (r: OpList<'a>)
    ensures
        r@ == finish_ops::<'a>(),
{
    let mut list = OpList::new();
    list.push(
        Op::Unlink {
            at: Handle::Cwd,
            path: Path::PutOldAbs,
            flags: AT_REMOVEDIR,
            required: false,
        },
    );
    list.push(
        Op::Unlink {
            at: Handle::Cwd,
            path: Path::ContentAbs,
            flags: AT_REMOVEDIR,
            required: false,
        },
    );
    list.push(Op::ChangeDir { path: Path::Slash });
    assert(list@ =~= finish_ops::<'a>());
    list
}

/// The one operation that lays down the managed `/dev`.
pub fn dev<'a>() -> (r: OpList<'a>)
    ensures
        r@ == seq![Op::<'a>::SetupDev],
{
    let mut list = OpList::new();
    list.push(Op::SetupDev);
    assert(list@ =~= seq![Op::<'a>::SetupDev]);
    list
}

/// Whether `path` has a slash at place `p`.
pub open spec fn has_slash_at(path: Seq<u8>, p: int) -> bool {
    0 <= p < path.len() && path[p] == 47
}

/// Whether the `m` operations from place `from` on make a file at `dst` for something
/// to be attached to: the directories above it first, where it has any. It is refused
/// where their path is too long.
pub open spec fn makes_file(ops: Seq<Op>, from: int, m: int, dst: ZStr) -> bool {
    let has_parent = exists|p: int| 0 < p && #[trigger] has_slash_at(dst@, p);
    let is_long = exists|p: int| MAX_PATH_BYTES <= p && #[trigger] has_slash_at(dst@, p);
    &&& ops[from + m - 1] == (Op::CreateFile { path: Path::Given(dst) })
    &&& !has_parent ==> m == 1
    &&& has_parent ==> m == 2
    &&& has_parent && !is_long ==> ops[from] == (Op::MkdirAll { path: Path::ParentOf(dst) })
    &&& is_long ==> ops[from] == Op::Refuse(Errno(ENAMETOOLONG))
}

proof fn lemma_last_slash(path: Seq<u8>)
    ensures
        -1 <= super::path::last_slash(path) < path.len(),
        super::path::last_slash(path) >= 0 ==> has_slash_at(
            path,
            super::path::last_slash(path),
        ),
        forall|p: int| #[trigger]
            has_slash_at(path, p) ==> p <= super::path::last_slash(path),
    decreases path.len(),
{
    if path.len() > 0 && path.last() != 47 {
        let shorter = path.drop_last();
        lemma_last_slash(shorter);
        assert forall|p: int| #[trigger] has_slash_at(path, p) implies p
            <= super::path::last_slash(path) by {
            assert(has_slash_at(shorter, p));
        }
        let end = super::path::last_slash(path);
        if end >= 0 {
            assert(has_slash_at(shorter, end));
        }
    }
}

proof fn lemma_makes_file(dst: ZStr)
    ensures
        makes_file(
            mount_point_ops(dst, false),
            0,
            mount_point_ops(dst, false).len() as int,
            dst,
        ),
{
    lemma_last_slash(dst@);
    let end = super::path::last_slash(dst@);
    if end > 0 {
        assert(has_slash_at(dst@, end));
    }
}

/// The place of the last slash of a path, if there is one: there is a slash, and none
/// comes later.
pub proof fn law_where_the_last_slash_is(path: ZStr, r: Option<usize>, p: int)
    requires
        call_ensures(find_last_slash, (path,), r),
    ensures
        r matches Some(at) ==> at < path@.len() && path@[at as int] == 47,
        r matches Some(at) ==> (at < p < path@.len() ==> path@[p] != 47),
        r is None ==> (0 <= p < path@.len() ==> path@[p] != 47),
{
    lemma_last_slash(path@);
    if 0 <= p < path@.len() && path@[p] == 47 {
        assert(has_slash_at(path@, p));
    }
}

/// What a bind mount is attached to suits its source: a directory for a directory, and
/// a file, with the directories above it, for anything else; and it is there before
/// anything is attached.
pub proof fn law_mount_point_suits_the_source(entry: BindMount, r: OpList, a: int, k: int)
    requires
        call_ensures(process_bind_mount, (&entry,), r),
        0 <= a < r@.len(),
        r@[a] is Attach,
    ensures
        entry.src_is_dir ==> 0 < a && r@[0] == (Op::MkdirAll { path: Path::Given(entry.dst_rel) }),
        entry.src_is_dir && 0 <= k < r@.len() ==> !(r@[k] is CreateFile),
        !entry.src_is_dir ==> (exists|m: int|
            1 <= m <= a && m <= 2 && #[trigger] makes_file(r@, 0, m, entry.dst_rel)),
        !entry.src_is_dir && 0 <= k < r@.len() ==> r@[k] != (Op::MkdirAll {
            path: Path::Given(entry.dst_rel),
        }),
{
    let point = mount_point_ops(entry.dst_rel, entry.src_is_dir);
    if !entry.src_is_dir {
        lemma_makes_file(entry.dst_rel);
        let m = point.len() as int;
        assert(forall|i: int| 0 <= i < m ==> r@[i] == point[i]);
        assert(makes_file(r@, 0, m, entry.dst_rel));
    }
}

/// A bind mount of a path clones the whole tree at the path, makes it read-only if it
/// is to be, attaches it at its target and lets it go; after its mount point is made
/// it does nothing else. A tree that may be written is not made read-only.
pub proof fn law_bind_of_a_path(entry: BindMount, source: ZStr, r: OpList)
    requires
        entry.source == BindMountSource::Path(source),
        call_ensures(process_bind_mount, (&entry,), r),
    ensures
        ({
            let ro = if entry.read_only {
                1int
            } else {
                0
            };
            let m = r@.len() - 3 - ro;
            &&& m >= 1
            &&& entry.src_is_dir ==> m == 1
            &&& !entry.src_is_dir ==> makes_file(r@, 0, m, entry.dst_rel)
            &&& r@[m] == (Op::OpenTree {
                at: Handle::Cwd,
                path: Path::Given(source),
                flags: 0x88001,
            })
            &&& entry.read_only ==> locks(r@[m + 1], Handle::Tree, entry.src_is_dir)
            &&& r@[m + 1 + ro] == (Op::Attach {
                from: Handle::Tree,
                dst: Path::Given(entry.dst_rel),
            })
            &&& r@[m + 2 + ro] == Op::Release
        }),
{
    lemma_flag_values();
    let point = mount_point_ops(entry.dst_rel, entry.src_is_dir);
    let m = point.len() as int;
    assert(forall|i: int| 0 <= i < m ==> r@[i] == point[i]);
    if !entry.src_is_dir {
        lemma_makes_file(entry.dst_rel);
        assert(makes_file(r@, 0, m, entry.dst_rel));
    }
}

/// Whether `op` makes the mount that `at` holds read-only, and changes nothing else:
/// with everything mounted in it if `whole`, and by itself otherwise.
pub open spec fn locks(op: Op, at: Handle, whole: bool) -> bool {
    &&& op matches Op::SetAttr { at: held, path, flags, attr }
    &&& held == at
    &&& path is Nothing
    &&& whole ==> flags == 0x9000
    &&& !whole ==> flags == 0x1000
    &&& attr.attr_set == 1
    &&& attr.propagation == 0
}

proof fn lemma_flag_values()
    ensures
        CLONE_TREE == 0x88001,
        CLONE_ONE == 0x80001,
        WHOLE_TREE == 0x9000,
{
    assert(CLONE_TREE == 0x88001 && CLONE_ONE == 0x80001 && WHOLE_TREE == 0x9000) by (bit_vector);
}

/// A bind mount of a prepared tree makes it private with everything in it, read-only
/// if it is to be, attaches it, clones it from where it is attached, detaches it
/// again, and attaches the clone, read-only again if it is to be. It is refused where
/// the path for detaching is too long.
pub proof fn law_bind_of_a_prepared_tree(
    entry: BindMount,
    prepared: super::PreparedBindMount,
    r: OpList,
)
    requires
        entry.source == BindMountSource::Prepared(&prepared),
        call_ensures(process_bind_mount, (&entry,), r),
    ensures
        ({
            let ro = if entry.read_only {
                1int
            } else {
                0
            };
            let m = r@.len() - 6 - 2 * ro;
            let at = Handle::Prepared(prepared.spec_fd());
            let dst = Path::Given(entry.dst_rel);
            &&& m >= 1
            &&& entry.src_is_dir ==> m == 1
            &&& !entry.src_is_dir ==> makes_file(r@, 0, m, entry.dst_rel)
            &&& r@[m] == (Op::SetAttr {
                at,
                path: Path::Nothing,
                flags: 0x9000,
                attr: MountAttr { attr_set: 0, propagation: 0x40000 },
            })
            &&& entry.read_only ==> locks(r@[m + 1], at, entry.src_is_dir)
            &&& r@[m + 1 + ro] == (Op::Attach { from: at, dst })
            &&& r@[m + 2 + ro] == (Op::OpenTree { at: Handle::Root, path: dst, flags: 0x88001 })
            &&& Path::BelowNewRoot(entry.dst_rel).text().len() < 4096 ==> r@[m + 3 + ro] == (
            Op::Unmount { path: Path::BelowNewRoot(entry.dst_rel), flags: 2 })
            &&& Path::BelowNewRoot(entry.dst_rel).text().len() >= 4096 ==> r@[m + 3 + ro]
                == Op::Refuse(Errno(ENAMETOOLONG))
            &&& entry.read_only ==> locks(r@[m + 4 + ro], Handle::Tree, entry.src_is_dir)
            &&& r@[m + 4 + 2 * ro] == (Op::Attach { from: Handle::Tree, dst })
            &&& r@[m + 5 + 2 * ro] == Op::Release
        }),
{
    lemma_flag_values();
    let point = mount_point_ops(entry.dst_rel, entry.src_is_dir);
    let m = point.len() as int;
    assert(forall|i: int| 0 <= i < m ==> r@[i] == point[i]);
    if !entry.src_is_dir {
        lemma_makes_file(entry.dst_rel);
        assert(makes_file(r@, 0, m, entry.dst_rel));
    }
}

/// A tmpfs has the size and the mode that it is given, and no others; it is configured
/// before it is created, and read-only before it is attached if it is to be.
pub proof fn law_tmpfs_has_what_it_is_given(entry: TmpfsMount, r: OpList)
    requires
        call_ensures(process_tmpfs_mount, (&entry,), r),
    ensures
        ({
            let size = if entry.size_bytes is Some {
                1int
            } else {
                0
            };
            let n = 2 + size + if entry.mode is Some {
                1int
            } else {
                0
            };
            &&& r@[0] == (Op::MkdirAll { path: Path::Given(entry.dst_rel) })
            &&& r@[1] == Op::FsOpen(FsType::Tmpfs)
            &&& entry.size_bytes matches Some(v) ==> r@[2] == (Op::FsConfigString {
                key: FsKey::Size,
                value: FsValue::Decimal(v),
            })
            &&& entry.mode matches Some(v) ==> r@[2 + size] == (Op::FsConfigString {
                key: FsKey::Mode,
                value: FsValue::Octal(v),
            })
            &&& is_mounted(r@, n, entry.dst_rel, entry.read_only)
        }),
{
}

/// Whether the operations from place `n` on create the filesystem, mount it, make it
/// read-only if it is to be, attach it at `dst` and let it go, and nothing follows.
pub open spec fn is_mounted(ops: Seq<Op>, n: int, dst: ZStr, read_only: bool) -> bool {
    let ro = if read_only {
        1int
    } else {
        0
    };
    &&& ops.len() == n + 4 + ro
    &&& ops[n] == Op::FsConfigCreate
    &&& ops[n + 1] == Op::FsMount
    &&& read_only ==> locks(ops[n + 2], Handle::Tree, false)
    &&& ops[n + 2 + ro] == (Op::Attach { from: Handle::Tree, dst: Path::Given(dst) })
    &&& ops[n + 3 + ro] == Op::Release
}

/// A procfs shows and hides what it is told, and a message-queue filesystem has no
/// options; both can be written.
pub proof fn law_proc_and_mqueue_have_what_they_are_given(
    entry: ProcMount,
    mqueue: MqueueMount,
    r: OpList,
    s: OpList,
)
    requires
        call_ensures(process_proc_mount, (&entry,), r),
        call_ensures(process_mqueue_mount, (&mqueue,), s),
    ensures
        ({
            let subset = if entry.subset is Some {
                1int
            } else {
                0
            };
            let n = 2 + subset + if entry.hidepid is Some {
                1int
            } else {
                0
            };
            &&& r@[0] == (Op::MkdirAll { path: Path::Given(entry.dst_rel) })
            &&& r@[1] == Op::FsOpen(FsType::Proc)
            &&& entry.subset matches Some(v) ==> r@[2] == (Op::FsConfigString {
                key: FsKey::Subset,
                value: FsValue::Subset(v),
            })
            &&& entry.hidepid matches Some(v) ==> r@[2 + subset] == (Op::FsConfigString {
                key: FsKey::HidePid,
                value: FsValue::HidePid(v),
            })
            &&& is_mounted(r@, n, entry.dst_rel, false)
        }),
        s@[0] == (Op::MkdirAll { path: Path::Given(mqueue.dst_rel) }),
        s@[1] == Op::FsOpen(FsType::Mqueue),
        is_mounted(s@, 2, mqueue.dst_rel, false),
{
}

/// A file with given content is written under a staging name of its own, and that very
/// file is cloned and attached at the target, read-only first if it is to be.
pub proof fn law_file_has_its_content(entry: FileMount, index: usize, r: OpList)
    requires
        call_ensures(process_file_mount, (&entry, index), r),
    ensures
        ({
            let ro = if entry.read_only {
                1int
            } else {
                0
            };
            let m = r@.len() - 4 - ro;
            &&& r@[0] == (Op::WriteFile {
                path: Path::StagingName(index),
                content: entry.content,
            })
            &&& makes_file(r@, 1, m, entry.dst_rel)
            &&& r@[m + 1] == (Op::OpenTree {
                at: Handle::Staging,
                path: Path::StagingName(index),
                flags: 0x80001,
            })
            &&& entry.read_only ==> locks(r@[m + 2], Handle::Tree, false)
            &&& r@[m + 2 + ro] == (Op::Attach {
                from: Handle::Tree,
                dst: Path::Given(entry.dst_rel),
            })
            &&& r@[m + 3 + ro] == Op::Release
        }),
{
    lemma_flag_values();
    let point = mount_point_ops(entry.dst_rel, false);
    let m = point.len() as int;
    assert(forall|i: int| 0 <= i < m ==> r@[1 + i] == point[i]);
    lemma_makes_file(entry.dst_rel);
    assert(makes_file(r@, 1, m, entry.dst_rel));
}

/// An entry is carried out by what its kind takes.
pub proof fn law_each_entry_by_its_kind(
    entry: MountEntry,
    index: usize,
    r: OpList,
    one: OpList,
)
    requires
        call_ensures(process_mount_entry, (&entry, index), r),
        match entry {
            MountEntry::Bind(bind) => call_ensures(process_bind_mount, (&bind,), one),
            MountEntry::Tmpfs(tmpfs) => call_ensures(process_tmpfs_mount, (&tmpfs,), one),
            MountEntry::Proc(shown) => call_ensures(process_proc_mount, (&shown,), one),
            MountEntry::Mqueue(mqueue) => call_ensures(process_mqueue_mount, (&mqueue,), one),
            MountEntry::File(file) => call_ensures(process_file_mount, (&file, index), one),
        },
    ensures
        r@ == one@,
{
}

/// A staging file is removed by its own name, and it must be there.
pub proof fn law_staging_file_is_removed(index: usize, r: OpList)
    requires
        call_ensures(cleanup_staging, (index,), r),
    ensures
        r@ == seq![
            Op::Unlink {
                at: Handle::Staging,
                path: Path::StagingName(index),
                flags: 0,
                required: true,
            },
        ],
{
}

/// An operation may fail only where nothing is lost by it: a directory may be there
/// already, and what is not required to go may stay.
pub proof fn law_which_failures_do_not_matter(op: Op, err: Errno, r: bool)
    requires
        call_ensures(Op::may_fail_with, (&op, err), r),
    ensures
        r <==> op is Mkdir && err.0 == EEXIST || (op matches Op::Unlink { required, .. }
            && !required),
{
}

} // verus!
