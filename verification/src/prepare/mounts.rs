//! The mounts.

use vstd::prelude::*;

use crate::arena::{alloc_cstr, alloc_items};
use crate::child::{
    BindMount, BindMountSource, FileMount, MountPlan, MqueueMount, ProcMount, TmpfsMount,
};
use crate::config::{HidePid, MountEntry, ProcSubset, Table};
use crate::error::BuildError;

verus! {

/// What the source of a bind mount was found to be.
#[derive(Debug)]
pub enum SourceStat {
    Directory,
    NotDirectory,
    /// It could not be looked at, for the given reason.
    Failed(String),
}

/// `s` without the slashes that it begins with.
pub open spec fn trim_slashes(s: Seq<char>) -> Seq<char>
    decreases s.len(),
{
    if s.len() > 0 && s[0] == '/' {
        trim_slashes(s.skip(1))
    } else {
        s
    }
}

/// No target begins with a slash, so that each of them is below the new root;
/// and nothing but slashes is taken away.
pub proof fn law_targets_are_relative(s: Seq<char>)
    ensures
        trim_slashes(s).len() > 0 ==> trim_slashes(s)[0] != '/',
        trim_slashes(s).len() <= s.len(),
        s.skip(s.len() - trim_slashes(s).len()) == trim_slashes(s),
        forall|i: int| 0 <= i < s.len() - trim_slashes(s).len() ==> s[i] == '/',
    decreases s.len(),
{
    if s.len() > 0 && s[0] == '/' {
        let rest = s.skip(1);
        law_targets_are_relative(rest);
        let n = s.len() - trim_slashes(s).len();
        assert(s.skip(n as int) =~= rest.skip(n - 1));
        assert forall|i: int| 0 <= i < n implies s[i] == '/' by {
            if i > 0 {
                assert(rest[i - 1] == s[i]);
            }
        }
    } else {
        assert(s.skip(0) =~= s);
    }
}

fn trim_start_slashes(s: &str) -> (r: &str)
    ensures
        r@ == trim_slashes(s@),
{
    let n: usize = s.unicode_len();
    let mut i: usize = 0;
    assert(s@.skip(0) =~= s@);
    while i < n && s.get_char(i) == '/'
        invariant
            i <= n,
            n == s@.len(),
            trim_slashes(s@) == trim_slashes(s@.skip(i as int)),
        decreases n - i,
    {
        assert(s@.skip(i as int).skip(1) =~= s@.skip(i + 1));
        i += 1;
    }
    assert(s@.subrange(i as int, n as int) =~= s@.skip(i as int));
    s.substring_char(i, n)
}

/// What is said of a bind source that cannot be looked at.
pub open spec fn stat_message(src: Seq<char>, reason: Seq<char>) -> Seq<char> {
    "cannot stat bind source "@ + src + ": "@ + reason
}

/// The child's name for what a procfs shows.
pub open spec fn child_subset(subset: Option<ProcSubset>) -> Option<crate::child::ProcSubset> {
    match subset {
        Some(ProcSubset::Pid) => Some(crate::child::ProcSubset::Pid),
        None => None,
    }
}

/// The child's name for whom a procfs hides.
pub open spec fn child_hidepid(hidepid: Option<HidePid>) -> Option<crate::child::HidePid> {
    match hidepid {
        Some(HidePid::Visible) => Some(crate::child::HidePid::Visible),
        Some(HidePid::Hidden) => Some(crate::child::HidePid::Hidden),
        Some(HidePid::Invisible) => Some(crate::child::HidePid::Invisible),
        None => None,
    }
}

fn to_child_subset(subset: Option<ProcSubset>) -> (r: Option<crate::child::ProcSubset>)
    ensures
        r == child_subset(subset),
{
    match subset {
        Some(ProcSubset::Pid) => Some(crate::child::ProcSubset::Pid),
        None => None,
    }
}

fn to_child_hidepid(hidepid: Option<HidePid>) -> (r: Option<crate::child::HidePid>)
    ensures
        r == child_hidepid(hidepid),
{
    match hidepid {
        Some(HidePid::Visible) => Some(crate::child::HidePid::Visible),
        Some(HidePid::Hidden) => Some(crate::child::HidePid::Hidden),
        Some(HidePid::Invisible) => Some(crate::child::HidePid::Invisible),
        None => None,
    }
}

impl MountEntry {
    /// Where the mount goes.
    pub open spec fn target(self) -> Seq<char> {
        match self {
            MountEntry::Bind { dst, .. } => dst@,
            MountEntry::Tmpfs { dst, .. } => dst@,
            MountEntry::Proc { dst, .. } => dst@,
            MountEntry::Mqueue { dst } => dst@,
            MountEntry::File { dst, .. } => dst@,
        }
    }

    /// What is wrong with the mount, if anything is. `stat` is what its source
    /// was found to be, and matters to a bind mount alone.
    pub open spec fn error(self, stat: SourceStat) -> Option<Seq<char>> {
        let target = crate::arena::nul_error(trim_slashes(self.target()), "mount dst"@);
        match self {
            MountEntry::Bind { src, .. } => match stat {
                SourceStat::Failed(reason) => Some(stat_message(src@, reason@)),
                _ => super::first(crate::arena::nul_error(src@, "mount src"@), target),
            },
            _ => target,
        }
    }

    /// Whether `r` is the mount, at its target below the new root.
    pub open spec fn yields(self, stat: SourceStat, r: crate::child::MountEntry) -> bool {
        let target = trim_slashes(self.target());
        match self {
            MountEntry::Bind { src, dst, read_only } => {
                &&& r matches crate::child::MountEntry::Bind(bind)
                &&& bind.source matches BindMountSource::Path(path)
                &&& crate::arena::is_text(path, src@)
                &&& crate::arena::is_text(bind.dst_rel, target)
                &&& bind.src_is_dir == (stat is Directory)
                &&& bind.read_only == read_only
            },
            MountEntry::Tmpfs { dst, size, mode, read_only } => {
                &&& r matches crate::child::MountEntry::Tmpfs(tmpfs)
                &&& crate::arena::is_text(tmpfs.dst_rel, target)
                &&& tmpfs.size_bytes == size
                &&& tmpfs.mode == mode
                &&& tmpfs.read_only == read_only
            },
            MountEntry::Proc { dst, subset, hidepid } => {
                &&& r matches crate::child::MountEntry::Proc(proc_mount)
                &&& crate::arena::is_text(proc_mount.dst_rel, target)
                &&& proc_mount.subset == child_subset(subset)
                &&& proc_mount.hidepid == child_hidepid(hidepid)
            },
            MountEntry::Mqueue { dst } => {
                &&& r matches crate::child::MountEntry::Mqueue(mqueue)
                &&& crate::arena::is_text(mqueue.dst_rel, target)
            },
            MountEntry::File { dst, content, read_only } => {
                &&& r matches crate::child::MountEntry::File(file)
                &&& crate::arena::is_text(file.dst_rel, target)
                &&& file.content@ == vstd::utf8::encode_utf8(content@)
                &&& file.read_only == read_only
            },
        }
    }

    /// Prepares the mount. `stat` is what its source was found to be.
    pub fn prepare<'a>(&self, arena: &'a bumpalo::Bump, stat: &SourceStat) -> (r: Result<
        crate::child::MountEntry<'a>,
        BuildError,
    >)
        ensures
            match r {
                Ok(entry) => self.error(*stat) is None && self.yields(*stat, entry),
                Err(BuildError::InvalidConfig(message)) => self.error(*stat) == Some(message@),
            },
    {
        match self {
            MountEntry::Bind { src, dst, read_only } => {
                let src_is_dir: bool = match stat {
                    SourceStat::Directory => true,
                    SourceStat::NotDirectory => false,
                    SourceStat::Failed(reason) => {
                        let mut message = String::from_str("cannot stat bind source ");
                        message.append(src.as_str());
                        message.append(": ");
                        message.append(reason.as_str());
                        return Err(BuildError::InvalidConfig(message));
                    },
                };
                let path = alloc_cstr(arena, src.as_str(), "mount src")?;
                let dst_rel = alloc_cstr(arena, trim_start_slashes(dst.as_str()), "mount dst")?;
                Ok(
                    crate::child::MountEntry::Bind(
                        BindMount {
                            source: BindMountSource::Path(path),
                            dst_rel,
                            src_is_dir,
                            read_only: *read_only,
                        },
                    ),
                )
            },
            MountEntry::Tmpfs { dst, size, mode, read_only } => {
                let dst_rel = alloc_cstr(arena, trim_start_slashes(dst.as_str()), "mount dst")?;
                Ok(
                    crate::child::MountEntry::Tmpfs(
                        TmpfsMount {
                            dst_rel,
                            read_only: *read_only,
                            size_bytes: *size,
                            mode: *mode,
                        },
                    ),
                )
            },
            MountEntry::Proc { dst, subset, hidepid } => {
                let dst_rel = alloc_cstr(arena, trim_start_slashes(dst.as_str()), "mount dst")?;
                Ok(
                    crate::child::MountEntry::Proc(
                        ProcMount {
                            dst_rel,
                            subset: to_child_subset(*subset),
                            hidepid: to_child_hidepid(*hidepid),
                        },
                    ),
                )
            },
            MountEntry::Mqueue { dst } => {
                let dst_rel = alloc_cstr(arena, trim_start_slashes(dst.as_str()), "mount dst")?;
                Ok(crate::child::MountEntry::Mqueue(MqueueMount { dst_rel }))
            },
            MountEntry::File { dst, content, read_only } => {
                let dst_rel = alloc_cstr(arena, trim_start_slashes(dst.as_str()), "mount dst")?;
                let content: &'a [u8] = arena.alloc_slice_copy(content.as_str().as_bytes());
                Ok(
                    crate::child::MountEntry::File(
                        FileMount { dst_rel, content, read_only: *read_only },
                    ),
                )
            },
        }
    }
}

/// What is wrong with the first `n` mounts, if anything is.
pub open spec fn entries_error(
    entries: Seq<MountEntry>,
    stats: Seq<SourceStat>,
    n: int,
) -> Option<Seq<char>>
    decreases n,
{
    if n <= 0 {
        None
    } else {
        super::first(entries_error(entries, stats, n - 1), entries[n - 1].error(stats[n - 1]))
    }
}

impl Table {
    /// What is wrong with the mounts, if anything is.
    pub open spec fn error(self, stats: Seq<SourceStat>) -> Option<Seq<char>> {
        entries_error(self.entries@, stats, self.entries@.len() as int)
    }

    /// Whether `r` is the mounts, in the same order.
    pub open spec fn yields(self, stats: Seq<SourceStat>, r: MountPlan) -> bool {
        &&& r.entries@.len() == self.entries@.len()
        &&& forall|i: int|
            0 <= i < self.entries@.len() ==> self.entries@[i].yields(
                stats[i],
                #[trigger] r.entries@[i],
            )
    }

    /// Prepares the mounts. `stats` says of each entry what its source was
    /// found to be.
    pub fn prepare<'a>(&self, arena: &'a bumpalo::Bump, stats: &[SourceStat]) -> (r: Result<
        MountPlan<'a>,
        BuildError,
    >)
        requires
            stats@.len() == self.entries@.len(),
        ensures
            match r {
                Ok(plan) => self.error(stats@) is None && self.yields(stats@, plan),
                Err(BuildError::InvalidConfig(message)) => self.error(stats@) == Some(message@),
            },
    {
        let mut entries: Vec<crate::child::MountEntry<'a>> = Vec::new();
        let mut i: usize = 0;
        while i < self.entries.len()
            invariant
                i <= self.entries@.len(),
                stats@.len() == self.entries@.len(),
                entries@.len() == i,
                entries_error(self.entries@, stats@, i as int) is None,
                forall|j: int|
                    0 <= j < i ==> self.entries@[j].yields(stats@[j], #[trigger] entries@[j]),
            decreases self.entries@.len() - i,
        {
            match self.entries[i].prepare(arena, &stats[i]) {
                Ok(entry) => entries.push(entry),
                Err(e) => {
                    proof {
                        lemma_entries_error_stays(
                            self.entries@,
                            stats@,
                            i + 1,
                            self.entries@.len() as int,
                        );
                    }
                    return Err(e);
                },
            }
            i += 1;
        }
        Ok(MountPlan { entries: alloc_items(arena, entries) })
    }
}

proof fn lemma_entries_error_stays(
    entries: Seq<MountEntry>,
    stats: Seq<SourceStat>,
    m: int,
    n: int,
)
    requires
        m <= n,
        entries_error(entries, stats, m) is Some,
    ensures
        entries_error(entries, stats, n) == entries_error(entries, stats, m),
    decreases n,
{
    if m < n {
        lemma_entries_error_stays(entries, stats, m, n - 1);
    }
}

/// A mount shows what was asked for, below the new root: its target loses the
/// slashes that it begins with, and everything else is passed on as it is. Whether
/// a bind mount shows a directory is what its source was found to be.
pub proof fn law_mount_is_the_one_asked_for(
    entry: MountEntry,
    arena: &bumpalo::Bump,
    stat: SourceStat,
    r: Result<crate::child::MountEntry, BuildError>,
)
    requires
        call_ensures(MountEntry::prepare, (&entry, arena, &stat), r),
        r is Ok,
    ensures
        match entry {
            MountEntry::Bind { src, dst, read_only } => {
                &&& r->Ok_0 matches crate::child::MountEntry::Bind(bind)
                &&& bind.source matches BindMountSource::Path(path)
                &&& path@ == vstd::utf8::encode_utf8(src@)
                &&& is_below_root(dst@, bind.dst_rel@)
                &&& bind.src_is_dir <==> stat is Directory
                &&& bind.read_only == read_only
            },
            MountEntry::Tmpfs { dst, size, mode, read_only } => {
                &&& r->Ok_0 matches crate::child::MountEntry::Tmpfs(tmpfs)
                &&& is_below_root(dst@, tmpfs.dst_rel@)
                &&& tmpfs.size_bytes == size
                &&& tmpfs.mode == mode
                &&& tmpfs.read_only == read_only
            },
            MountEntry::Proc { dst, subset, hidepid } => {
                &&& r->Ok_0 matches crate::child::MountEntry::Proc(shown)
                &&& is_below_root(dst@, shown.dst_rel@)
                &&& subset is Some <==> shown.subset is Some
                &&& hidepid is None <==> shown.hidepid is None
                &&& hidepid == Some(HidePid::Visible) <==> shown.hidepid == Some(
                    crate::child::HidePid::Visible,
                )
                &&& hidepid == Some(HidePid::Hidden) <==> shown.hidepid == Some(
                    crate::child::HidePid::Hidden,
                )
                &&& hidepid == Some(HidePid::Invisible) <==> shown.hidepid == Some(
                    crate::child::HidePid::Invisible,
                )
            },
            MountEntry::Mqueue { dst } => {
                &&& r->Ok_0 matches crate::child::MountEntry::Mqueue(mqueue)
                &&& is_below_root(dst@, mqueue.dst_rel@)
            },
            MountEntry::File { dst, content, read_only } => {
                &&& r->Ok_0 matches crate::child::MountEntry::File(file)
                &&& is_below_root(dst@, file.dst_rel@)
                &&& file.content@ == vstd::utf8::encode_utf8(content@)
                &&& file.read_only == read_only
            },
        },
{
    law_targets_are_relative(entry.target());
    let n = entry.target().len() - trim_slashes(entry.target()).len();
    assert(is_below_root_at(
        entry.target(),
        vstd::utf8::encode_utf8(trim_slashes(entry.target())),
        n as int,
    ));
}

/// Whether `rel` is the text of `dst` without the slashes that it begins with.
pub open spec fn is_below_root(dst: Seq<char>, rel: Seq<u8>) -> bool {
    exists|n: int| #[trigger] is_below_root_at(dst, rel, n)
}

/// Whether `dst` begins with exactly `n` slashes, and `rel` is the text of what
/// follows.
pub open spec fn is_below_root_at(dst: Seq<char>, rel: Seq<u8>, n: int) -> bool {
    &&& 0 <= n <= dst.len()
    &&& forall|i: int| 0 <= i < n ==> dst[i] == '/'
    &&& n < dst.len() ==> dst[n] != '/'
    &&& rel == vstd::utf8::encode_utf8(dst.skip(n))
}

/// A mount is refused exactly if its target or its source holds a NUL, or if its
/// source cannot be looked at; that comes first, and the message names the source
/// and the reason.
pub proof fn law_mount_is_refused(
    entry: MountEntry,
    arena: &bumpalo::Bump,
    stat: SourceStat,
    r: Result<crate::child::MountEntry, BuildError>,
)
    requires
        call_ensures(MountEntry::prepare, (&entry, arena, &stat), r),
    ensures
        entry is Bind && stat is Failed ==> (r matches Err(BuildError::InvalidConfig(message))
            && message@ == "cannot stat bind source "@ + entry->Bind_src@ + ": "@
            + stat->Failed_0@),
        entry is Bind && !(stat is Failed) ==> (r is Ok <==> !crate::arena::has_nul(
            entry->Bind_src@,
        ) && !crate::arena::has_nul(trim_slashes(entry->Bind_dst@))),
        entry is Bind && !(stat is Failed) && crate::arena::has_nul(entry->Bind_src@) ==> (
        r matches Err(BuildError::InvalidConfig(message)) && message@ == "mount src"@
            + ": interior null byte in \""@ + entry->Bind_src@ + "\""@),
        entry is Tmpfs ==> (r is Ok <==> !crate::arena::has_nul(trim_slashes(entry->Tmpfs_dst@))),
        entry is Proc ==> (r is Ok <==> !crate::arena::has_nul(trim_slashes(entry->Proc_dst@))),
        entry is Mqueue ==> (r is Ok <==> !crate::arena::has_nul(
            trim_slashes(entry->Mqueue_dst@),
        )),
        entry is File ==> (r is Ok <==> !crate::arena::has_nul(trim_slashes(entry->File_dst@))),
{
}

/// The mounts come in the order in which they were given, each the one that it
/// would be by itself; they are refused exactly if one of them is.
pub proof fn law_mounts_come_in_order(
    table: Table,
    arena: &bumpalo::Bump,
    stats: &[SourceStat],
    r: Result<MountPlan, BuildError>,
    i: int,
    one: Result<crate::child::MountEntry, BuildError>,
)
    requires
        stats@.len() == table.entries@.len(),
        call_ensures(Table::prepare, (&table, arena, stats), r),
        0 <= i < table.entries@.len(),
        call_ensures(MountEntry::prepare, (&table.entries@[i], arena, &stats@[i]), one),
    ensures
        r is Ok ==> one is Ok && r->Ok_0.entries@.len() == table.entries@.len()
            && table.entries@[i].yields(stats@[i], r->Ok_0.entries@[i]),
        one is Err && (forall|j: int|
            0 <= j < i ==> (#[trigger] table.entries@[j]).error(stats@[j]) is None) ==> (r matches
            Err(BuildError::InvalidConfig(message)) && one matches Err(
            BuildError::InvalidConfig(said),
        ) && message@ == said@),
{
    let n = table.entries@.len() as int;
    if one is Err {
        lemma_entries_error_at(table.entries@, stats@, i, n);
        if forall|j: int| 0 <= j < i ==> (#[trigger] table.entries@[j]).error(stats@[j]) is None {
            lemma_no_entries_error(table.entries@, stats@, i);
            lemma_entries_error_stays(table.entries@, stats@, i + 1, n);
        }
    }
}

proof fn lemma_no_entries_error(entries: Seq<MountEntry>, stats: Seq<SourceStat>, n: int)
    requires
        n <= entries.len(),
        forall|j: int| 0 <= j < n ==> (#[trigger] entries[j]).error(stats[j]) is None,
    ensures
        entries_error(entries, stats, n) is None,
    decreases n,
{
    if n > 0 {
        lemma_no_entries_error(entries, stats, n - 1);
    }
}

proof fn lemma_entries_error_at(entries: Seq<MountEntry>, stats: Seq<SourceStat>, i: int, n: int)
    requires
        0 <= i < n <= entries.len(),
        entries[i].error(stats[i]) is Some,
    ensures
        entries_error(entries, stats, n) is Some,
    decreases n,
{
    if i < n - 1 {
        lemma_entries_error_at(entries, stats, i, n - 1);
    }
}

/// A target that holds a NUL is quoted without the slashes that it begins with.
pub proof fn law_wrong_target_is_named(
    entry: MountEntry,
    arena: &bumpalo::Bump,
    stat: SourceStat,
    r: Result<crate::child::MountEntry, BuildError>,
    target: Seq<char>,
)
    requires
        call_ensures(MountEntry::prepare, (&entry, arena, &stat), r),
        match entry {
            MountEntry::Bind { src, dst, .. } => target == dst@ && !(stat is Failed)
                && !crate::arena::has_nul(src@),
            MountEntry::Tmpfs { dst, .. } => target == dst@,
            MountEntry::Proc { dst, .. } => target == dst@,
            MountEntry::Mqueue { dst } => target == dst@,
            MountEntry::File { dst, .. } => target == dst@,
        },
        crate::arena::has_nul(trim_slashes(target)),
    ensures
        r matches Err(BuildError::InvalidConfig(message)) && message@ == "mount dst"@
            + ": interior null byte in \""@ + trim_slashes(target) + "\""@,
{
}

} // verus!
