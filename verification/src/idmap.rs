//! The maps of user and group ids.

use vstd::prelude::*;

use crate::config::IdMap;
use crate::error::{Cause, Error, SetupStage};
use crate::text::{append_decimal, append_signed};

verus! {

/// A file of the child that the parent writes.
#[derive(Clone, Copy, Debug, PartialEq, Eq, Structural)]
pub enum IdMapFile {
    /// Whether the child may change its groups. It may not, and this has to be
    /// said before an unprivileged parent may write the map of group ids.
    Setgroups,
    /// The map of user ids.
    UidMap,
    /// The map of group ids.
    GidMap,
}

impl IdMapFile {
    /// The name of the file.
    pub open spec fn name(self) -> Seq<char> {
        match self {
            IdMapFile::Setgroups => "/setgroups"@,
            IdMapFile::UidMap => "/uid_map"@,
            IdMapFile::GidMap => "/gid_map"@,
        }
    }

    /// The path of the file for process `pid`.
    pub open spec fn spec_path(self, pid: i32) -> Seq<char> {
        "/proc/"@ + crate::text::signed_decimal(pid as int) + self.name()
    }

    /// What is written to the file.
    pub open spec fn spec_content(self, uid_map: IdMap, gid_map: IdMap) -> Seq<char> {
        match self {
            IdMapFile::Setgroups => "deny"@,
            IdMapFile::UidMap => map_line(uid_map),
            IdMapFile::GidMap => map_line(gid_map),
        }
    }

    /// The file that is written next.
    pub open spec fn spec_next(self) -> Option<IdMapFile> {
        match self {
            IdMapFile::Setgroups => Some(IdMapFile::UidMap),
            IdMapFile::UidMap => Some(IdMapFile::GidMap),
            IdMapFile::GidMap => None,
        }
    }

    /// The path of the file for process `pid`.
    pub fn path(self, pid: i32) -> (r: String)
        ensures
            r@ == self.spec_path(pid),
    {
        let mut path = String::from_str("/proc/");
        append_signed(&mut path, pid);
        path.append(
            match self {
                IdMapFile::Setgroups => "/setgroups",
                IdMapFile::UidMap => "/uid_map",
                IdMapFile::GidMap => "/gid_map",
            },
        );
        path
    }

    /// What is written to the file.
    pub fn content(self, uid_map: &IdMap, gid_map: &IdMap) -> (r: String)
        ensures
            r@ == self.spec_content(*uid_map, *gid_map),
    {
        match self {
            IdMapFile::Setgroups => String::from_str("deny"),
            IdMapFile::UidMap => write_line(uid_map),
            IdMapFile::GidMap => write_line(gid_map),
        }
    }

    /// The file that is written next.
    pub fn next(self) -> (r: Option<IdMapFile>)
        ensures
            r == self.spec_next(),
    {
        match self {
            IdMapFile::Setgroups => Some(IdMapFile::UidMap),
            IdMapFile::UidMap => Some(IdMapFile::GidMap),
            IdMapFile::GidMap => None,
        }
    }

    /// The failure to write the file for process `pid`.
    pub fn failed(self, pid: i32, cause: Cause) -> (r: Error)
        ensures
            self.is_failure(pid, cause, r),
    {
        let mut context = String::from_str("failed to write ");
        let path = self.path(pid);
        context.append(path.as_str());
        Error::Setup { stage: SetupStage::IdMap, context, source: cause }
    }

    /// Whether `error` is the failure to write the file for process `pid`.
    pub open spec fn is_failure(self, pid: i32, cause: Cause, error: Error) -> bool {
        &&& error matches Error::Setup { stage, context, source }
        &&& stage == SetupStage::IdMap
        &&& context@ == "failed to write "@ + self.spec_path(pid)
        &&& source == cause
    }
}

/// A map in the form in which the kernel reads it.
pub open spec fn map_line(map: IdMap) -> Seq<char> {
    crate::text::decimal(map.inside as nat) + " "@ + crate::text::decimal(map.outside as nat)
        + " "@ + crate::text::decimal(map.count as nat) + "\n"@
}

fn write_line(map: &IdMap) -> (r: String)
    ensures
        r@ == map_line(*map),
{
    let mut line = String::new();
    append_decimal(&mut line, map.inside as u64);
    line.append(" ");
    append_decimal(&mut line, map.outside as u64);
    line.append(" ");
    append_decimal(&mut line, map.count as u64);
    line.append("\n");
    assert(line@ =~= map_line(*map));
    line
}

/// The files are those of the process with the given id, each under its own name.
pub proof fn law_files_of_a_process(file: IdMapFile, pid: i32, r: String)
    requires
        call_ensures(IdMapFile::path, (file, pid), r),
    ensures
        file is Setgroups ==> r@ == "/proc/"@ + crate::text::signed_decimal(pid as int)
            + "/setgroups"@,
        file is UidMap ==> r@ == "/proc/"@ + crate::text::signed_decimal(pid as int)
            + "/uid_map"@,
        file is GidMap ==> r@ == "/proc/"@ + crate::text::signed_decimal(pid as int)
            + "/gid_map"@,
{
}

/// The child may not change its groups. A map is one line: the first id inside, the
/// first id outside and how many there are, in decimal; that of users says nothing of
/// groups, and that of groups nothing of users.
pub proof fn law_what_is_written(file: IdMapFile, uid_map: IdMap, gid_map: IdMap, r: String)
    requires
        call_ensures(IdMapFile::content, (file, &uid_map, &gid_map), r),
    ensures
        file is Setgroups ==> r@ == "deny"@,
        file is UidMap ==> r@ == crate::text::decimal(uid_map.inside as nat) + " "@
            + crate::text::decimal(uid_map.outside as nat) + " "@ + crate::text::decimal(
            uid_map.count as nat,
        ) + "\n"@,
        file is GidMap ==> r@ == crate::text::decimal(gid_map.inside as nat) + " "@
            + crate::text::decimal(gid_map.outside as nat) + " "@ + crate::text::decimal(
            gid_map.count as nat,
        ) + "\n"@,
{
}

/// Groups are denied first, then come the map of users and the map of groups.
pub proof fn law_order_of_the_files(file: IdMapFile, r: Option<IdMapFile>)
    requires
        call_ensures(IdMapFile::next, (file,), r),
    ensures
        file is Setgroups ==> r == Some(IdMapFile::UidMap),
        file is UidMap ==> r == Some(IdMapFile::GidMap),
        file is GidMap ==> r is None,
{
}

/// A file that could not be written is named, with the cause.
pub proof fn law_failed_file_is_named(
    file: IdMapFile,
    pid: i32,
    cause: Cause,
    path: String,
    r: Error,
)
    requires
        call_ensures(IdMapFile::path, (file, pid), path),
        call_ensures(IdMapFile::failed, (file, pid, cause), r),
    ensures
        r matches Error::Setup { stage, context, source } && stage is IdMap && context@
            == "failed to write "@ + path@ && source == cause,
{
}

} // verus!
