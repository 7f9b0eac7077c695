//! Filesystem staging, mount setup, and pivot-root support.
//!
//! A [`MountSetup`] says what the child does next to build its filesystem. The
//! program that holds it performs the operation and hands back what came of it.

pub mod laws;
pub mod ops;
pub mod path;

use vstd::prelude::*;

use crate::child::{MountEntry, MountPlan};
use crate::error::Errno;
use crate::sys::{AT_EMPTY_PATH, AT_RECURSIVE, OPEN_TREE_CLOEXEC, OPEN_TREE_CLONE};
use ops::{Op, OpList};

verus! {

/// Bytes of the log that a failed filesystem creation leaves.
pub const FSCONFIG_LOG_BYTES: usize = 1024;

/// `open_tree` flags that clone the single mount that a descriptor stands in.
pub const PREPARE_ONE: u32 = OPEN_TREE_CLONE | OPEN_TREE_CLOEXEC | AT_EMPTY_PATH;

/// `open_tree` flags that clone the whole tree that a descriptor stands in.
pub const PREPARE_TREE: u32 = PREPARE_ONE | AT_RECURSIVE;

/// Detached mount tree prepared before entering a new mount namespace.
///
/// It names the descriptor of the tree and does not own it: whoever opened the
/// tree closes it, after the child has been started.
#[derive(Debug, PartialEq, Eq)]
pub struct PreparedBindMount {
    fd: i32,
}

/// Failure while cloning a bind source into a detached mount tree.
#[derive(Clone, Copy, Debug, PartialEq, Eq, Structural)]
pub struct MountPrepareError {
    errno: i32,
}

impl MountPrepareError {
    /// The error number.
    pub closed spec fn spec_errno(self) -> i32 {
        self.errno
    }

    /// The error number.
    pub fn errno(self) -> (r: i32)
        ensures
            r == self.spec_errno(),
    {
        self.errno
    }
}

impl PreparedBindMount {
    /// The descriptor of the tree.
    pub closed spec fn spec_fd(self) -> i32 {
        self.fd
    }

    /// The descriptor of the tree.
    pub fn fd(&self) -> (r: i32)
        ensures
            r == self.spec_fd(),
    {
        self.fd
    }

    /// The flags with which `open_tree` clones the source descriptor, at the
    /// empty path.
    pub fn clone_flags(recursive: bool) -> (r: u32)
        ensures
            r == if recursive {
                PREPARE_TREE
            } else {
                PREPARE_ONE
            },
    {
        if recursive {
            PREPARE_TREE
        } else {
            PREPARE_ONE
        }
    }

    /// Takes what `open_tree` answered when it was asked, with
    /// [`PreparedBindMount::clone_flags`], to clone the source while it was
    /// still in the caller's mount namespace.
    pub fn clone_from_fd(opened: Result<i32, Errno>) -> (r: Result<Self, MountPrepareError>)
        ensures
            match opened {
                Ok(fd) => r matches Ok(prepared) && prepared.spec_fd() == fd,
                Err(err) => r matches Err(error) && error.spec_errno() == err.0,
            },
    {
        match opened {
            Ok(fd) => Ok(PreparedBindMount { fd }),
            Err(err) => Err(MountPrepareError { errno: err.0 }),
        }
    }
}

/// Why the filesystem setup failed, and at which part of it.
#[derive(Clone, Copy, Debug, PartialEq, Eq, Structural)]
pub struct MountError {
    pub errno: Errno,
    pub detail: i32,
}

impl MountError {
    /// The failure of the part that `detail` names.
    pub fn new(errno: Errno, detail: i32) -> (r: Self)
        ensures
            r == (MountError { errno, detail }),
    {
        MountError { errno, detail }
    }
}

/// A part of the filesystem setup.
#[derive(Clone, Copy, Debug, PartialEq, Eq, Structural)]
pub enum Section {
    /// The new root.
    Root,
    /// The managed `/dev`. It comes before the entries, so that what they bind
    /// below `/dev` is not shadowed.
    Dev,
    /// An entry of the plan.
    Entry(usize),
    /// The change of the root.
    Pivot,
    /// The removal of a staging file.
    Cleanup(usize),
    /// The rest of the cleanup.
    Finish,
}

/// The number of files among the first `n` entries.
pub open spec fn files(entries: Seq<MountEntry>, n: int) -> nat
    decreases n,
{
    if n <= 0 {
        0
    } else {
        files(entries, n - 1) + if entries[n - 1] is File {
            1nat
        } else {
            0nat
        }
    }
}

/// Whether the setup of `plan` has the section.
pub open spec fn has_section(plan: &MountPlan, section: Section) -> bool {
    match section {
        Section::Entry(i) => i < plan.entries@.len(),
        Section::Cleanup(i) => i < files(plan.entries@, plan.entries@.len() as int),
        _ => true,
    }
}

/// The operations of a section.
pub open spec fn section_ops<'a>(plan: &MountPlan<'a>, section: Section) -> Seq<Op<'a>> {
    match section {
        Section::Root => ops::root_ops(),
        Section::Dev => seq![Op::SetupDev],
        Section::Entry(i) => ops::entry_ops(
            plan.entries@[i as int],
            files(plan.entries@, i as int) as usize,
        ),
        Section::Pivot => ops::pivot_ops(),
        Section::Cleanup(i) => ops::cleanup_ops(i),
        Section::Finish => ops::finish_ops(),
    }
}

/// The section that follows.
pub open spec fn section_after(plan: &MountPlan, section: Section) -> Option<Section> {
    let n = plan.entries@.len() as int;
    match section {
        Section::Root => Some(Section::Dev),
        Section::Dev => Some(
            if n > 0 {
                Section::Entry(0)
            } else {
                Section::Pivot
            },
        ),
        Section::Entry(i) => Some(
            if i + 1 < n {
                Section::Entry((i + 1) as usize)
            } else {
                Section::Pivot
            },
        ),
        Section::Pivot => Some(
            if files(plan.entries@, n) > 0 {
                Section::Cleanup(0)
            } else {
                Section::Finish
            },
        ),
        Section::Cleanup(i) => Some(
            if i + 1 < files(plan.entries@, n) {
                Section::Cleanup((i + 1) as usize)
            } else {
                Section::Finish
            },
        ),
        Section::Finish => None,
    }
}

/// How a failure in the section is marked.
pub open spec fn section_detail(section: Section) -> int {
    match section {
        Section::Root => 0,
        Section::Dev => 2000,
        Section::Entry(i) => 1000 + i,
        Section::Pivot | Section::Cleanup(_) | Section::Finish => 3000,
    }
}

/// Where the setup stands.
#[derive(Clone, Copy, Debug, PartialEq, Eq, Structural)]
pub enum MountState {
    /// It is at an operation of a section.
    Performing { section: Section, index: usize },
    /// It has succeeded.
    Done,
    /// It has failed.
    Failed(MountError),
}

/// The failure of a section with error `errno`.
pub open spec fn failing(section: Section, errno: Errno) -> MountState {
    MountState::Failed(MountError { errno, detail: section_detail(section) as i32 })
}

/// The setup comes to an operation: it performs it, unless there is nothing that
/// could be done.
pub open spec fn arriving(plan: &MountPlan, section: Section, index: int) -> MountState {
    match section_ops(plan, section)[index] {
        Op::Refuse(errno) => failing(section, errno),
        _ => MountState::Performing { section, index: index as usize },
    }
}

/// The setup goes on after an operation.
pub open spec fn following(plan: &MountPlan, section: Section, index: int) -> MountState {
    if index + 1 < section_ops(plan, section).len() {
        arriving(plan, section, index + 1)
    } else {
        match section_after(plan, section) {
            Some(next) => arriving(plan, next, 0),
            None => MountState::Done,
        }
    }
}

/// Where the setup stands at first.
pub open spec fn starting(plan: &MountPlan) -> MountState {
    arriving(plan, Section::Root, 0)
}

/// Where the setup stands after an operation that succeeded or failed.
pub open spec fn stepping(
    plan: &MountPlan,
    state: MountState,
    reply: Result<(), Errno>,
) -> MountState {
    match state {
        MountState::Performing { section, index } => match reply {
            Ok(_) => following(plan, section, index as int),
            Err(err) => if section_ops(plan, section)[index as int].tolerates(err) {
                following(plan, section, index as int)
            } else {
                failing(section, err)
            },
        },
        _ => state,
    }
}

/// What the program does next.
#[derive(Clone, Copy, Debug)]
pub enum MountCommand<'a> {
    /// Perform the operation.
    Perform(Op<'a>),
    /// Nothing: the setup has succeeded.
    Done,
    /// Nothing: the setup has failed.
    Failed(MountError),
}

/// Whether `command` is what is done in `state`.
pub open spec fn is_command(plan: &MountPlan, state: MountState, command: MountCommand) -> bool {
    match state {
        MountState::Performing { section, index } => command == MountCommand::Perform(
            section_ops(plan, section)[index as int],
        ),
        MountState::Done => command is Done,
        MountState::Failed(err) => command == MountCommand::Failed(err),
    }
}

/// Whether every entry of the plan has a mark of its own.
pub open spec fn is_markable(plan: &MountPlan) -> bool {
    plan.entries@.len() <= i32::MAX - 999
}

proof fn lemma_files(entries: Seq<MountEntry>, n: int)
    requires
        0 <= n,
    ensures
        files(entries, n) <= n,
    decreases n,
{
    if n > 0 {
        lemma_files(entries, n - 1);
    }
}

proof fn lemma_files_grow(entries: Seq<MountEntry>, m: int, n: int)
    requires
        0 <= m <= n,
    ensures
        files(entries, m) <= files(entries, n),
    decreases n,
{
    if m < n {
        lemma_files_grow(entries, m, n - 1);
    }
}

proof fn lemma_section_is_not_empty(plan: &MountPlan, section: Section)
    ensures
        section_ops(plan, section).len() > 0,
{
}

/// The progress of a filesystem setup.
#[derive(Clone, Copy, Debug)]
pub struct MountSetup {
    state: MountState,
    content_count: usize,
}

impl MountSetup {
    /// Where the setup stands.
    pub closed spec fn state(self) -> MountState {
        self.state
    }

    /// Whether this is the progress of a setup of `plan`.
    pub closed spec fn wf(self, plan: &MountPlan) -> bool {
        self.state matches MountState::Performing { section, index } ==> {
            &&& self.is_at(plan, section)
            &&& index < section_ops(plan, section).len()
            &&& !(section_ops(plan, section)[index as int] is Refuse)
        }
    }

    /// Whether the setup is in `section`, with the files before it counted.
    spec fn is_at(self, plan: &MountPlan, section: Section) -> bool {
        let n = plan.entries@.len() as int;
        &&& has_section(plan, section)
        &&& match section {
            Section::Root | Section::Dev => self.content_count == 0,
            Section::Entry(i) => self.content_count == files(plan.entries@, i as int),
            _ => self.content_count == files(plan.entries@, n),
        }
    }

    /// Starts the setup of `plan`.
    pub fn start<'a>(plan: &MountPlan<'a>) -> (r: (MountSetup, MountCommand<'a>))
        requires
            is_markable(plan),
        ensures
            r.0.wf(plan),
            r.0.state() == starting(plan),
            is_command(plan, r.0.state(), r.1),
    {
        let mut setup = MountSetup { state: MountState::Done, content_count: 0 };
        let command = setup.arrive(plan, Section::Root, 0);
        (setup, command)
    }

    /// Goes on after the operation that was given last has succeeded or failed.
    pub fn resume<'a>(&mut self, plan: &MountPlan<'a>, reply: Result<(), Errno>) -> (r:
        MountCommand<'a>)
        requires
            is_markable(plan),
            old(self).wf(plan),
        ensures
            final(self).wf(plan),
            final(self).state() == stepping(plan, old(self).state(), reply),
            is_command(plan, final(self).state(), r),
    {
        match self.state {
            MountState::Performing { section, index } => {
                let list = operations(plan, section, self.content_count);
                match reply {
                    Ok(_) => self.follow(plan, section, index, list),
                    Err(err) => if list.get(index).may_fail_with(err) {
                        self.follow(plan, section, index, list)
                    } else {
                        self.fail(section, err)
                    },
                }
            },
            MountState::Done => MountCommand::Done,
            MountState::Failed(err) => MountCommand::Failed(err),
        }
    }

    fn arrive<'a>(&mut self, plan: &MountPlan<'a>, section: Section, index: usize) -> (r:
        MountCommand<'a>)
        requires
            is_markable(plan),
            old(self).is_at(plan, section),
            index < section_ops(plan, section).len(),
        ensures
            final(self).wf(plan),
            final(self).state == arriving(plan, section, index as int),
            is_command(plan, final(self).state, r),
    {
        let list = operations(plan, section, self.content_count);
        let op = list.get(index);
        match op {
            Op::Refuse(errno) => self.fail(section, errno),
            _ => {
                self.state = MountState::Performing { section, index };
                MountCommand::Perform(op)
            },
        }
    }

    fn fail<'a>(&mut self, section: Section, errno: Errno) -> (r: MountCommand<'a>)
        requires
            section matches Section::Entry(i) ==> i <= i32::MAX - 1000,
        ensures
            final(self).state == failing(section, errno),
            r == MountCommand::<'a>::Failed(final(self).state->Failed_0),
    {
        let detail: i32 = match section {
            Section::Root => 0,
            Section::Dev => 2000,
            Section::Entry(i) => 1000 + i as i32,
            _ => 3000,
        };
        let err = MountError::new(errno, detail);
        self.state = MountState::Failed(err);
        MountCommand::Failed(err)
    }

    fn follow<'a>(
        &mut self,
        plan: &MountPlan<'a>,
        section: Section,
        index: usize,
        list: OpList<'a>,
    ) -> (r: MountCommand<'a>)
        requires
            is_markable(plan),
            old(self).is_at(plan, section),
            list@ == section_ops(plan, section),
            index < list@.len(),
        ensures
            final(self).wf(plan),
            final(self).state == following(plan, section, index as int),
            is_command(plan, final(self).state, r),
    {
        if index < list.len() - 1 {
            return self.arrive(plan, section, index + 1);
        }
        let n: usize = plan.entries.len();
        proof {
            lemma_files(plan.entries@, n as int);
        }
        let next: Section = match section {
            Section::Root => Section::Dev,
            Section::Dev => if n > 0 {
                Section::Entry(0)
            } else {
                Section::Pivot
            },
            Section::Entry(i) => {
                proof {
                    lemma_files(plan.entries@, i as int);
                }
                match plan.entries[i] {
                    MountEntry::File(_) => {
                        self.content_count = self.content_count + 1;
                    },
                    _ => {},
                }
                if i + 1 < n {
                    Section::Entry(i + 1)
                } else {
                    Section::Pivot
                }
            },
            Section::Pivot => if self.content_count > 0 {
                Section::Cleanup(0)
            } else {
                Section::Finish
            },
            Section::Cleanup(i) => if i + 1 < self.content_count {
                Section::Cleanup(i + 1)
            } else {
                Section::Finish
            },
            Section::Finish => {
                self.state = MountState::Done;
                return MountCommand::Done;
            },
        };
        proof {
            lemma_section_is_not_empty(plan, next);
        }
        self.arrive(plan, next, 0)
    }
}

/// The operations of a section of `plan`, with the files before it counted.
fn operations<'a>(plan: &MountPlan<'a>, section: Section, content_count: usize) -> (r: OpList<'a>)
    requires
        has_section(plan, section),
        section matches Section::Entry(i) ==> content_count == files(plan.entries@, i as int),
    ensures
        r@ == section_ops(plan, section),
{
    match section {
        Section::Root => ops::setup_root(),
        Section::Dev => ops::dev(),
        Section::Entry(i) => ops::process_mount_entry(&plan.entries[i], content_count),
        Section::Pivot => ops::pivot(),
        Section::Cleanup(i) => ops::cleanup_staging(i),
        Section::Finish => ops::finish(),
    }
}

/// Why a filesystem could not be created, and how much of a log it left.
#[derive(Clone, Copy, Debug, PartialEq, Eq, Structural)]
pub struct FsConfigCreateError {
    pub errno: Errno,
    pub log_len: usize,
}

/// A failed creation, ready to be told on standard error part by part.
#[derive(Clone, Copy, Debug)]
pub struct FsConfigReport<'l> {
    pub errno: Errno,
    pub parts: [&'l [u8]; 5],
}

/// What is said of a failed creation, part by part. The log is left out, with
/// its line end, where it is empty.
pub open spec fn fsconfig_message(label: Seq<u8>, log: Seq<u8>) -> Seq<Seq<u8>> {
    seq![
        vstd::utf8::encode_utf8("pnut-child: "@),
        label,
        vstd::utf8::encode_utf8(" fsconfig failed\n"@),
        log,
        if log.len() > 0 {
            vstd::utf8::encode_utf8("\n"@)
        } else {
            Seq::<u8>::empty()
        },
    ]
}

/// Tells of a failed creation, with the log that the kernel left.
pub fn report_fsconfig_failure<'l>(
    err: FsConfigCreateError,
    log_buf: &'l [u8],
    label: &'l [u8],
) -> (r: FsConfigReport<'l>)
    requires
        err.log_len <= log_buf@.len(),
    ensures
        r.errno == err.errno,
        r.parts@.map(|i: int, part: &[u8]| part@) == fsconfig_message(
            label@,
            log_buf@.take(err.log_len as int),
        ),
{
    let log: &'l [u8] = &log_buf[0..err.log_len];
    let none: &'l [u8] = &[];
    let end: &'l [u8] = if err.log_len != 0 {
        "\n".as_bytes()
    } else {
        none
    };
    let parts: [&'l [u8]; 5] = [
        "pnut-child: ".as_bytes(),
        label,
        " fsconfig failed\n".as_bytes(),
        log,
        end,
    ];
    proof {
        assert(log@ =~= log_buf@.take(err.log_len as int));
        assert(none@ =~= Seq::<u8>::empty());
        assert(parts@.map(|i: int, part: &[u8]| part@) =~= fsconfig_message(
            label@,
            log_buf@.take(err.log_len as int),
        ));
    }
    FsConfigReport { errno: err.errno, parts }
}

/// A source is cloned from its descriptor into a tree of its own, which is closed on
/// execution; with whatever is mounted in it exactly if that is asked for.
pub proof fn law_flags_of_a_clone(recursive: bool, flags: u32)
    requires
        call_ensures(PreparedBindMount::clone_flags, (recursive,), flags),
    ensures
        recursive ==> flags == 0x1 + 0x80000 + 0x1000 + 0x8000,
        !recursive ==> flags == 0x1 + 0x80000 + 0x1000,
{
    assert(PREPARE_ONE == 0x81001 && PREPARE_TREE == 0x89001) by (bit_vector);
}

/// A tree is prepared exactly if it could be opened, and its descriptor or the error
/// number is passed on as it is.
pub proof fn law_when_a_tree_is_prepared(
    opened: Result<i32, Errno>,
    r: Result<PreparedBindMount, MountPrepareError>,
)
    requires
        call_ensures(PreparedBindMount::clone_from_fd, (opened,), r),
    ensures
        opened is Ok <==> r is Ok,
        r matches Ok(prepared) ==> prepared.spec_fd() == opened->Ok_0,
        r matches Err(error) ==> error.spec_errno() == opened->Err_0.0,
{
}

/// What is said of a failed creation names the filesystem and gives the whole log that
/// the kernel left, on a line of its own; nothing follows where there is no log. The
/// error is passed on.
pub proof fn law_failed_creation_is_told(
    err: FsConfigCreateError,
    log_buf: &[u8],
    label: &[u8],
    r: FsConfigReport,
)
    requires
        err.log_len <= log_buf@.len(),
        call_ensures(report_fsconfig_failure, (err, log_buf, label), r),
    ensures
        r.errno == err.errno,
        r.parts@[0]@ == vstd::utf8::encode_utf8("pnut-child: "@),
        r.parts@[1]@ == label@,
        r.parts@[2]@ == vstd::utf8::encode_utf8(" fsconfig failed\n"@),
        r.parts@[3]@ == log_buf@.take(err.log_len as int),
        err.log_len > 0 ==> r.parts@[4]@ == vstd::utf8::encode_utf8("\n"@),
        err.log_len == 0 ==> r.parts@[4]@.len() == 0,
{
    let said = r.parts@.map(|i: int, part: &[u8]| part@);
    assert(said[0] == r.parts@[0]@ && said[1] == r.parts@[1]@ && said[2] == r.parts@[2]@ && said[3]
        == r.parts@[3]@ && said[4] == r.parts@[4]@);
}

} // verus!
