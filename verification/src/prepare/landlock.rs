//! What the command may do with files and ports.

use vstd::prelude::*;

use crate::arena::alloc_items;
use crate::child::{LandlockNetRule, LandlockPathRule, LandlockRulesetAttr, LandlockSpec};
use crate::config::Landlock;
use crate::error::BuildError;
use landlock::Access;

verus! {

/// An access right to files.
#[derive(Clone, Copy, Debug, PartialEq, Eq, Structural)]
pub enum FsAccess {
    Execute,
    ReadFile,
    ReadDir,
    Refer,
    Truncate,
    IoctlDev,
}

impl FsAccess {
    /// The bit of the right.
    pub open spec fn bit(self) -> u64 {
        match self {
            FsAccess::Execute => 0x1,
            FsAccess::ReadFile => 0x4,
            FsAccess::ReadDir => 0x8,
            FsAccess::Refer => 0x2000,
            FsAccess::Truncate => 0x4000,
            FsAccess::IoctlDev => 0x8000,
        }
    }
}

/// An access right to ports.
#[derive(Clone, Copy, Debug, PartialEq, Eq, Structural)]
pub enum NetAccess {
    BindTcp,
    ConnectTcp,
}

impl NetAccess {
    /// The bit of the right.
    pub open spec fn bit(self) -> u64 {
        match self {
            NetAccess::BindTcp => 0x1,
            NetAccess::ConnectTcp => 0x2,
        }
    }
}

/// Every right to files that the first version of the interface knows.
pub const FIRST_VERSION: u64 = 0x1fff;

/// What reading takes: reading files and listing directories.
pub const READ: u64 = 0xc;

/// What writing takes: all that the first version knows, except execution.
pub const WRITE: u64 = 0x1ffe;

/// What execution takes: executing and reading files, and listing directories.
pub const EXECUTE: u64 = 0xd;

/// `landlock::BitFlags::from` a right to files, and its `bits`: the bit that the
/// kernel gives the right.
#[verifier::external_body]
fn fs_bits(access: FsAccess) -> (r: u64)
    ensures
        r == access.bit(),
{
    landlock::BitFlags::from(match access {
        FsAccess::Execute => landlock::AccessFs::Execute,
        FsAccess::ReadFile => landlock::AccessFs::ReadFile,
        FsAccess::ReadDir => landlock::AccessFs::ReadDir,
        FsAccess::Refer => landlock::AccessFs::Refer,
        FsAccess::Truncate => landlock::AccessFs::Truncate,
        FsAccess::IoctlDev => landlock::AccessFs::IoctlDev,
    }).bits()
}

/// `landlock::BitFlags::from` a right to ports, and its `bits`: the bit that the
/// kernel gives the right.
#[verifier::external_body]
fn net_bits(access: NetAccess) -> (r: u64)
    ensures
        r == access.bit(),
{
    landlock::BitFlags::from(match access {
        NetAccess::BindTcp => landlock::AccessNet::BindTcp,
        NetAccess::ConnectTcp => landlock::AccessNet::ConnectTcp,
    }).bits()
}

/// `landlock::AccessFs::from_all` of the first version, and its `bits`: the
/// thirteen lowest, which are the rights that this version knows.
#[verifier::external_body]
fn first_version_bits() -> (r: u64)
    ensures
        r == FIRST_VERSION,
{
    landlock::AccessFs::from_all(landlock::ABI::V1).bits()
}

fn read_bits() -> (r: u64)
    ensures
        r == READ,
{
    assert(0x4u64 | 0x8 == 0xc) by (bit_vector);
    fs_bits(FsAccess::ReadFile) | fs_bits(FsAccess::ReadDir)
}

fn write_bits() -> (r: u64)
    ensures
        r == WRITE,
{
    assert(0x1fffu64 & !0x1u64 == 0x1ffe) by (bit_vector);
    first_version_bits() & !fs_bits(FsAccess::Execute)
}

fn execute_bits() -> (r: u64)
    ensures
        r == EXECUTE,
{
    assert(0x1u64 | 0x4 | 0x8 == 0xd) by (bit_vector);
    fs_bits(FsAccess::Execute) | fs_bits(FsAccess::ReadFile) | fs_bits(FsAccess::ReadDir)
}

/// A path, and what may be done below it.
pub struct Grant {
    pub path: Seq<char>,
    pub access: u64,
}

/// The same access to each of the paths.
pub open spec fn grants(paths: Seq<String>, access: u64) -> Seq<Grant> {
    paths.map_values(|path: String| Grant { path: path@, access })
}

/// Whether `rules` are the grants.
pub open spec fn is_granted(rules: Seq<LandlockPathRule>, grants: Seq<Grant>) -> bool {
    &&& rules.len() == grants.len()
    &&& forall|i: int|
        0 <= i < grants.len() ==> crate::arena::is_text((#[trigger] rules[i]).path, grants[i].path)
            && rules[i].allowed_access == grants[i].access
}

/// The same access to each of the ports.
pub open spec fn port_rules(ports: Seq<u16>, access: u64) -> Seq<LandlockNetRule> {
    ports.map_values(|port: u16| LandlockNetRule { port, allowed_access: access })
}

/// The version of the interface that `count` grants take, which `version` has
/// brought. The first is always needed.
pub open spec fn needs(count: nat, version: u32) -> u32 {
    if count > 0 {
        version
    } else {
        1
    }
}

/// The later of two versions.
pub open spec fn later(a: u32, b: u32) -> u32 {
    if a < b {
        b
    } else {
        a
    }
}

/// The least version of the interface that knows what is asked for: the latest
/// that any of it takes.
pub open spec fn needed_version(config: Landlock) -> u32 {
    later(
        needs(config.allowed_refer@.len(), 2),
        later(
            needs(config.allowed_truncate@.len(), 3),
            later(
                needs(config.allowed_bind@.len(), 4),
                later(
                    needs(config.allowed_connect@.len(), 4),
                    needs(config.allowed_ioctl_dev@.len(), 5),
                ),
            ),
        ),
    )
}

/// Whether a version of the interface knows what is asked for.
pub open spec fn suffices(version: u32, config: Landlock) -> bool {
    &&& version >= 1
    &&& config.allowed_refer@.len() > 0 ==> version >= 2
    &&& config.allowed_truncate@.len() > 0 ==> version >= 3
    &&& config.allowed_bind@.len() > 0 ==> version >= 4
    &&& config.allowed_connect@.len() > 0 ==> version >= 4
    &&& config.allowed_ioctl_dev@.len() > 0 ==> version >= 5
}

/// The rights to files that are refused unless they are granted, at a version of
/// the interface.
pub open spec fn handled_fs(version: u32) -> u64 {
    if version >= 5 {
        0xffff
    } else if version >= 3 {
        0x7fff
    } else if version >= 2 {
        0x3fff
    } else {
        FIRST_VERSION
    }
}

/// The rights to ports that are refused unless they are granted.
pub open spec fn handled_net(config: Landlock) -> u64 {
    if config.allowed_bind@.len() > 0 && config.allowed_connect@.len() > 0 {
        0x3
    } else if config.allowed_bind@.len() > 0 {
        NetAccess::BindTcp.bit()
    } else if config.allowed_connect@.len() > 0 {
        NetAccess::ConnectTcp.bit()
    } else {
        0
    }
}

/// The least version of the interface that knows what is asked for.
pub fn compute_landlock_abi(config: &Landlock) -> (r: u32)
    ensures
        r == needed_version(*config),
{
    if config.allowed_ioctl_dev.len() > 0 {
        5
    } else if config.allowed_bind.len() > 0 || config.allowed_connect.len() > 0 {
        4
    } else if config.allowed_truncate.len() > 0 {
        3
    } else if config.allowed_refer.len() > 0 {
        2
    } else {
        1
    }
}

/// The rights to files that are refused unless they are granted, at a version of
/// the interface.
pub fn compute_handled_access_fs(abi: u32) -> (r: u64)
    ensures
        r == handled_fs(abi),
{
    assert(0x1fffu64 | 0x2000 == 0x3fff) by (bit_vector);
    assert(0x3fffu64 | 0x4000 == 0x7fff) by (bit_vector);
    assert(0x7fffu64 | 0x8000 == 0xffff) by (bit_vector);
    let mut mask: u64 = first_version_bits();
    if abi >= 2 {
        mask = mask | fs_bits(FsAccess::Refer);
    }
    if abi >= 3 {
        mask = mask | fs_bits(FsAccess::Truncate);
    }
    if abi >= 5 {
        mask = mask | fs_bits(FsAccess::IoctlDev);
    }
    mask
}

/// Adds a rule for each of the paths.
fn push_path_rules<'a>(
    rules: &mut Vec<LandlockPathRule<'a>>,
    arena: &'a bumpalo::Bump,
    paths: &Vec<String>,
    access: u64,
) -> (r: Result<(), BuildError>)
    ensures
        match r {
            Ok(_) => {
                &&& super::list_error(paths@, "landlock path"@, paths@.len() as int) is None
                &&& forall|before: Seq<Grant>|
                    #[trigger] is_granted(old(rules)@, before) ==> is_granted(
                        final(rules)@,
                        before + grants(paths@, access),
                    )
            },
            Err(BuildError::InvalidConfig(message)) => super::list_error(
                paths@,
                "landlock path"@,
                paths@.len() as int,
            ) == Some(message@),
        },
{
    let list = super::alloc_list(arena, paths, "landlock path")?;
    let ghost start = rules@;
    let mut i: usize = 0;
    while i < list.len()
        invariant
            i <= list@.len(),
            list@.len() == paths@.len(),
            forall|j: int|
                0 <= j < paths@.len() ==> crate::arena::is_text(#[trigger] list@[j], paths@[j]@),
            rules@.len() == start.len() + i,
            forall|j: int| 0 <= j < start.len() ==> rules@[j] == start[j],
            forall|j: int|
                start.len() <= j < rules@.len() ==> #[trigger] rules@[j] == (LandlockPathRule {
                    path: list@[j - start.len()],
                    allowed_access: access,
                }),
        decreases list@.len() - i,
    {
        rules.push(LandlockPathRule { path: list[i], allowed_access: access });
        i += 1;
    }
    proof {
        assert forall|before: Seq<Grant>| #[trigger] is_granted(start, before) implies is_granted(
            rules@,
            before + grants(paths@, access),
        ) by {
            let all = before + grants(paths@, access);
            assert forall|j: int| 0 <= j < all.len() implies crate::arena::is_text(
                (#[trigger] rules@[j]).path,
                all[j].path,
            ) && rules@[j].allowed_access == all[j].access by {
                if j < start.len() {
                    assert(rules@[j] == start[j]);
                } else {
                    assert(crate::arena::is_text(
                        list@[j - start.len()],
                        paths@[j - start.len()]@,
                    ));
                }
            }
        }
    }
    Ok(())
}

/// Adds a rule for each of the ports.
fn push_port_rules(rules: &mut Vec<LandlockNetRule>, ports: &Vec<u16>, access: u64)
    ensures
        final(rules)@ == old(rules)@ + port_rules(ports@, access),
{
    let ghost start = rules@;
    let mut i: usize = 0;
    while i < ports.len()
        invariant
            i <= ports@.len(),
            rules@ == start + port_rules(ports@.take(i as int), access),
        decreases ports@.len() - i,
    {
        rules.push(LandlockNetRule { port: ports[i], allowed_access: access });
        i += 1;
        assert(rules@ =~= start + port_rules(ports@.take(i as int), access));
    }
    assert(ports@.take(i as int) =~= ports@);
}

impl Landlock {
    /// What is granted, in order.
    pub open spec fn path_grants(self) -> Seq<Grant> {
        grants(self.allowed_read@, READ) + grants(self.allowed_write@, WRITE) + grants(
            self.allowed_execute@,
            EXECUTE,
        ) + grants(self.allowed_refer@, FsAccess::Refer.bit()) + grants(
            self.allowed_truncate@,
            FsAccess::Truncate.bit(),
        ) + grants(self.allowed_ioctl_dev@, FsAccess::IoctlDev.bit())
    }

    /// What is wrong with a list of paths, if anything is.
    pub open spec fn paths_error(paths: Seq<String>) -> Option<Seq<char>> {
        super::list_error(paths, "landlock path"@, paths.len() as int)
    }

    /// What is wrong with the paths, if anything is.
    pub open spec fn error(self) -> Option<Seq<char>> {
        super::first(
            Self::paths_error(self.allowed_read@),
            super::first(
                Self::paths_error(self.allowed_write@),
                super::first(
                    Self::paths_error(self.allowed_execute@),
                    super::first(
                        Self::paths_error(self.allowed_refer@),
                        super::first(
                            Self::paths_error(self.allowed_truncate@),
                            Self::paths_error(self.allowed_ioctl_dev@),
                        ),
                    ),
                ),
            ),
        )
    }

    /// Whether `r` grants what is allowed, and refuses everything else that the
    /// version knows.
    pub open spec fn yields(self, r: LandlockSpec) -> bool {
        &&& r.min_abi == needed_version(self)
        &&& r.ruleset.handled_access_fs == handled_fs(needed_version(self))
        &&& r.ruleset.handled_access_net == handled_net(self)
        &&& is_granted(r.path_rules@, self.path_grants())
        &&& r.net_rules@ == port_rules(self.allowed_bind@, NetAccess::BindTcp.bit()) + port_rules(
            self.allowed_connect@,
            NetAccess::ConnectTcp.bit(),
        )
    }

    /// Prepares the ruleset.
    pub fn prepare<'a>(&self, arena: &'a bumpalo::Bump) -> (r: Result<
        LandlockSpec<'a>,
        BuildError,
    >)
        ensures
            match r {
                Ok(ruleset) => self.error() is None && self.yields(ruleset),
                Err(BuildError::InvalidConfig(message)) => self.error() == Some(message@),
            },
    {
        let mut path_rules: Vec<LandlockPathRule<'a>> = Vec::new();
        let ghost g0 = Seq::<Grant>::empty();
        assert(is_granted(path_rules@, g0));
        push_path_rules(&mut path_rules, arena, &self.allowed_read, read_bits())?;
        let ghost g1 = g0 + grants(self.allowed_read@, READ);
        assert(is_granted(path_rules@, g1));
        push_path_rules(&mut path_rules, arena, &self.allowed_write, write_bits())?;
        let ghost g2 = g1 + grants(self.allowed_write@, WRITE);
        assert(is_granted(path_rules@, g2));
        push_path_rules(&mut path_rules, arena, &self.allowed_execute, execute_bits())?;
        let ghost g3 = g2 + grants(self.allowed_execute@, EXECUTE);
        assert(is_granted(path_rules@, g3));
        push_path_rules(&mut path_rules, arena, &self.allowed_refer, fs_bits(FsAccess::Refer))?;
        let ghost g4 = g3 + grants(self.allowed_refer@, FsAccess::Refer.bit());
        assert(is_granted(path_rules@, g4));
        push_path_rules(
            &mut path_rules,
            arena,
            &self.allowed_truncate,
            fs_bits(FsAccess::Truncate),
        )?;
        let ghost g5 = g4 + grants(self.allowed_truncate@, FsAccess::Truncate.bit());
        assert(is_granted(path_rules@, g5));
        push_path_rules(
            &mut path_rules,
            arena,
            &self.allowed_ioctl_dev,
            fs_bits(FsAccess::IoctlDev),
        )?;
        let ghost g6 = g5 + grants(self.allowed_ioctl_dev@, FsAccess::IoctlDev.bit());
        assert(is_granted(path_rules@, g6));
        assert(g6 =~= self.path_grants());

        let net_bind: u64 = net_bits(NetAccess::BindTcp);
        let net_connect: u64 = net_bits(NetAccess::ConnectTcp);
        let mut net_rules: Vec<LandlockNetRule> = Vec::new();
        push_port_rules(&mut net_rules, &self.allowed_bind, net_bind);
        push_port_rules(&mut net_rules, &self.allowed_connect, net_connect);
        assert(net_rules@ =~= port_rules(self.allowed_bind@, net_bind) + port_rules(
            self.allowed_connect@,
            net_connect,
        ));

        let min_abi: u32 = compute_landlock_abi(self);
        let handled_access_fs: u64 = compute_handled_access_fs(min_abi);
        let mut handled_access_net: u64 = 0;
        assert(0u64 | 0x1 == 0x1) by (bit_vector);
        assert(0u64 | 0x2 == 0x2) by (bit_vector);
        assert(0x1u64 | 0x2 == 0x3) by (bit_vector);
        if self.allowed_bind.len() > 0 {
            handled_access_net = handled_access_net | net_bind;
        }
        if self.allowed_connect.len() > 0 {
            handled_access_net = handled_access_net | net_connect;
        }
        Ok(
            LandlockSpec {
                min_abi,
                ruleset: LandlockRulesetAttr { handled_access_fs, handled_access_net },
                path_rules: alloc_items(arena, path_rules),
                net_rules: alloc_items(arena, net_rules),
            },
        )
    }
}

/// The version that is asked of the kernel suffices, and no earlier one does.
pub proof fn law_needed_version_is_the_least(config: Landlock, version: u32)
    ensures
        suffices(needed_version(config), config),
        suffices(version, config) ==> needed_version(config) <= version,
{
}

/// Whether every right of `access` is among those of `handled`.
pub open spec fn covers(handled: u64, access: u64) -> bool {
    access & handled == access
}

proof fn lemma_grants_are_covered(paths: Seq<String>, access: u64, handled: u64, i: int)
    requires
        0 <= i < paths.len(),
        covers(handled, access),
    ensures
        covers(handled, grants(paths, access)[i].access),
{
}

/// A ruleset grants no right that it does not handle, to a path or to a port:
/// the kernel would refuse it.
pub proof fn law_grants_are_handled(config: Landlock, ruleset: LandlockSpec, i: int)
    requires
        config.yields(ruleset),
    ensures
        0 <= i < ruleset.path_rules@.len() ==> covers(
            ruleset.ruleset.handled_access_fs,
            ruleset.path_rules@[i].allowed_access,
        ),
        0 <= i < ruleset.net_rules@.len() ==> covers(
            ruleset.ruleset.handled_access_net,
            ruleset.net_rules@[i].allowed_access,
        ),
{
    lemma_masks();
    if 0 <= i < ruleset.path_rules@.len() {
        let wanted = config.path_grants();
        assert(ruleset.path_rules@[i].allowed_access == wanted[i].access);
        let handled = ruleset.ruleset.handled_access_fs;
        let a = config.allowed_read@.len() as int;
        let b = a + config.allowed_write@.len();
        let c = b + config.allowed_execute@.len();
        let d = c + config.allowed_refer@.len();
        let e = d + config.allowed_truncate@.len();
        if i < a {
            lemma_grants_are_covered(config.allowed_read@, READ, handled, i);
        } else if i < b {
            lemma_grants_are_covered(config.allowed_write@, WRITE, handled, i - a);
        } else if i < c {
            lemma_grants_are_covered(config.allowed_execute@, EXECUTE, handled, i - b);
        } else if i < d {
            lemma_grants_are_covered(
                config.allowed_refer@,
                FsAccess::Refer.bit(),
                handled,
                i - c,
            );
        } else if i < e {
            lemma_grants_are_covered(
                config.allowed_truncate@,
                FsAccess::Truncate.bit(),
                handled,
                i - d,
            );
        } else {
            lemma_grants_are_covered(
                config.allowed_ioctl_dev@,
                FsAccess::IoctlDev.bit(),
                handled,
                i - e,
            );
        }
    }
}

proof fn lemma_masks()
    ensures
        forall|version: u32| #![trigger handled_fs(version)] {
            &&& covers(handled_fs(version), READ)
            &&& covers(handled_fs(version), WRITE)
            &&& covers(handled_fs(version), EXECUTE)
            &&& version >= 2 ==> covers(handled_fs(version), FsAccess::Refer.bit())
            &&& version >= 3 ==> covers(handled_fs(version), FsAccess::Truncate.bit())
            &&& version >= 5 ==> covers(handled_fs(version), FsAccess::IoctlDev.bit())
        },
        covers(0x3, 0x1),
        covers(0x3, 0x2),
        covers(0x1, 0x1),
        covers(0x2, 0x2),
{
    assert(0xcu64 & 0x1fff == 0xc && 0xcu64 & 0x3fff == 0xc && 0xcu64 & 0x7fff == 0xc && 0xcu64
        & 0xffff == 0xc) by (bit_vector);
    assert(0x1ffeu64 & 0x1fff == 0x1ffe && 0x1ffeu64 & 0x3fff == 0x1ffe && 0x1ffeu64 & 0x7fff
        == 0x1ffe && 0x1ffeu64 & 0xffff == 0x1ffe) by (bit_vector);
    assert(0xdu64 & 0x1fff == 0xd && 0xdu64 & 0x3fff == 0xd && 0xdu64 & 0x7fff == 0xd && 0xdu64
        & 0xffff == 0xd) by (bit_vector);
    assert(0x2000u64 & 0x3fff == 0x2000 && 0x2000u64 & 0x7fff == 0x2000 && 0x2000u64 & 0xffff
        == 0x2000) by (bit_vector);
    assert(0x4000u64 & 0x7fff == 0x4000 && 0x4000u64 & 0xffff == 0x4000) by (bit_vector);
    assert(0x8000u64 & 0xffff == 0x8000) by (bit_vector);
    assert(0x1u64 & 0x3 == 0x1 && 0x2u64 & 0x3 == 0x2 && 0x1u64 & 0x1 == 0x1 && 0x2u64 & 0x2
        == 0x2) by (bit_vector);
}

/// The rights that a list of paths grants, each by the bit that the kernel gives
/// it: reading is reading files and listing directories, executing is that and
/// executing files, and writing is everything that the first version of the
/// interface knows but executing.
pub proof fn law_what_each_list_grants(
    config: Landlock,
    arena: &bumpalo::Bump,
    r: Result<LandlockSpec, BuildError>,
    i: int,
)
    requires
        call_ensures(Landlock::prepare, (&config, arena), r),
        r is Ok,
    ensures
        0 <= i < config.allowed_read@.len() ==> grants_once(
            r->Ok_0,
            i,
            config.allowed_read@[i]@,
            0x4int + 0x8,
        ),
        0 <= i < config.allowed_write@.len() ==> grants_once(
            r->Ok_0,
            config.allowed_read@.len() + i,
            config.allowed_write@[i]@,
            0x1fff - 0x1,
        ),
        0 <= i < config.allowed_execute@.len() ==> grants_once(
            r->Ok_0,
            config.allowed_read@.len() + config.allowed_write@.len() + i,
            config.allowed_execute@[i]@,
            0x1int + 0x4 + 0x8,
        ),
        0 <= i < config.allowed_refer@.len() ==> grants_once(
            r->Ok_0,
            config.allowed_read@.len() + config.allowed_write@.len()
                + config.allowed_execute@.len() + i,
            config.allowed_refer@[i]@,
            0x2000,
        ),
        0 <= i < config.allowed_truncate@.len() ==> grants_once(
            r->Ok_0,
            config.allowed_read@.len() + config.allowed_write@.len()
                + config.allowed_execute@.len() + config.allowed_refer@.len() + i,
            config.allowed_truncate@[i]@,
            0x4000,
        ),
        0 <= i < config.allowed_ioctl_dev@.len() ==> grants_once(
            r->Ok_0,
            config.allowed_read@.len() + config.allowed_write@.len()
                + config.allowed_execute@.len() + config.allowed_refer@.len()
                + config.allowed_truncate@.len() + i,
            config.allowed_ioctl_dev@[i]@,
            0x8000,
        ),
        r->Ok_0.path_rules@.len() == config.allowed_read@.len() + config.allowed_write@.len()
            + config.allowed_execute@.len() + config.allowed_refer@.len()
            + config.allowed_truncate@.len() + config.allowed_ioctl_dev@.len(),
{
    let all = config.path_grants();
    let rules = r->Ok_0.path_rules@;
    let a = config.allowed_read@.len() as int;
    let b = a + config.allowed_write@.len();
    let c = b + config.allowed_execute@.len();
    let d = c + config.allowed_refer@.len();
    let e = d + config.allowed_truncate@.len();
    assert(is_granted(rules, all));
    if 0 <= i < config.allowed_read@.len() {
        assert(all[i] == grants(config.allowed_read@, READ)[i]);
        assert(crate::arena::is_text(rules[i].path, all[i].path));
    }
    if 0 <= i < config.allowed_write@.len() {
        assert(all[a + i] == grants(config.allowed_write@, WRITE)[i]);
        assert(crate::arena::is_text(rules[a + i].path, all[a + i].path));
    }
    if 0 <= i < config.allowed_execute@.len() {
        assert(all[b + i] == grants(config.allowed_execute@, EXECUTE)[i]);
        assert(crate::arena::is_text(rules[b + i].path, all[b + i].path));
    }
    if 0 <= i < config.allowed_refer@.len() {
        assert(all[c + i] == grants(config.allowed_refer@, FsAccess::Refer.bit())[i]);
        assert(crate::arena::is_text(rules[c + i].path, all[c + i].path));
    }
    if 0 <= i < config.allowed_truncate@.len() {
        assert(all[d + i] == grants(config.allowed_truncate@, FsAccess::Truncate.bit())[i]);
        assert(crate::arena::is_text(rules[d + i].path, all[d + i].path));
    }
    if 0 <= i < config.allowed_ioctl_dev@.len() {
        assert(all[e + i] == grants(config.allowed_ioctl_dev@, FsAccess::IoctlDev.bit())[i]);
        assert(crate::arena::is_text(rules[e + i].path, all[e + i].path));
    }
}

/// Whether rule number `at` grants `access`, and nothing else, below `path`.
pub open spec fn grants_once(
    ruleset: LandlockSpec,
    at: int,
    path: Seq<char>,
    access: int,
) -> bool {
    &&& 0 <= at < ruleset.path_rules@.len()
    &&& ruleset.path_rules@[at].path@ == vstd::utf8::encode_utf8(path)
    &&& ruleset.path_rules@[at].allowed_access == access
}

/// A port that may be bound is granted for that and nothing else, and so is one
/// that may be connected to; no other port has a rule. Binding is refused for the
/// other ports exactly if some port may be bound, and connecting likewise.
pub proof fn law_what_each_port_is_granted(
    config: Landlock,
    arena: &bumpalo::Bump,
    r: Result<LandlockSpec, BuildError>,
    i: int,
)
    requires
        call_ensures(Landlock::prepare, (&config, arena), r),
        r is Ok,
    ensures
        0 <= i < config.allowed_bind@.len() ==> r->Ok_0.net_rules@[i] == (LandlockNetRule {
            port: config.allowed_bind@[i],
            allowed_access: 1,
        }),
        0 <= i < config.allowed_connect@.len() ==> r->Ok_0.net_rules@[config.allowed_bind@.len()
            + i] == (LandlockNetRule { port: config.allowed_connect@[i], allowed_access: 2 }),
        r->Ok_0.net_rules@.len() == config.allowed_bind@.len() + config.allowed_connect@.len(),
        r->Ok_0.ruleset.handled_access_net & 1 != 0 <==> config.allowed_bind@.len() > 0,
        r->Ok_0.ruleset.handled_access_net & 2 != 0 <==> config.allowed_connect@.len() > 0,
        r->Ok_0.ruleset.handled_access_net <= 3,
{
    let n = config.allowed_bind@.len() as int;
    if 0 <= i < config.allowed_connect@.len() {
        assert(r->Ok_0.net_rules@[n + i] == port_rules(
            config.allowed_connect@,
            NetAccess::ConnectTcp.bit(),
        )[i]);
    }
    assert(0u64 & 1 == 0 && 1u64 & 1 == 1 && 2u64 & 1 == 0 && 3u64 & 1 == 1 && 0u64 & 2 == 0
        && 1u64 & 2 == 0 && 2u64 & 2 == 2 && 3u64 & 2 == 2) by (bit_vector);
}

/// Everything that the version asked of the kernel knows is refused unless it is
/// granted: a right that came with a later version is handled exactly if that
/// version is asked for, and it is asked for exactly if something in the
/// configuration takes it.
pub proof fn law_rights_are_handled_from_their_version_on(
    config: Landlock,
    arena: &bumpalo::Bump,
    r: Result<LandlockSpec, BuildError>,
)
    requires
        call_ensures(Landlock::prepare, (&config, arena), r),
        r is Ok,
    ensures
        1 <= r->Ok_0.min_abi <= 5,
        r->Ok_0.min_abi >= 5 <==> config.allowed_ioctl_dev@.len() > 0,
        r->Ok_0.min_abi >= 4 <==> config.allowed_ioctl_dev@.len() > 0
            || config.allowed_bind@.len() > 0 || config.allowed_connect@.len() > 0,
        r->Ok_0.min_abi >= 3 <==> config.allowed_ioctl_dev@.len() > 0
            || config.allowed_bind@.len() > 0 || config.allowed_connect@.len() > 0
            || config.allowed_truncate@.len() > 0,
        r->Ok_0.min_abi >= 2 <==> config.allowed_ioctl_dev@.len() > 0
            || config.allowed_bind@.len() > 0 || config.allowed_connect@.len() > 0
            || config.allowed_truncate@.len() > 0 || config.allowed_refer@.len() > 0,
        r->Ok_0.ruleset.handled_access_fs == 0x1fff + (if r->Ok_0.min_abi >= 2 {
            0x2000int
        } else {
            0
        }) + (if r->Ok_0.min_abi >= 3 {
            0x4000int
        } else {
            0
        }) + (if r->Ok_0.min_abi >= 5 {
            0x8000int
        } else {
            0
        }),
{
}

/// A ruleset is refused exactly if one of its paths holds a NUL, and the message
/// says so.
pub proof fn law_only_a_nul_is_refused(
    config: Landlock,
    arena: &bumpalo::Bump,
    r: Result<LandlockSpec, BuildError>,
)
    requires
        call_ensures(Landlock::prepare, (&config, arena), r),
    ensures
        r is Ok <==> super::is_free_of_nul(config.allowed_read@) && super::is_free_of_nul(
            config.allowed_write@,
        ) && super::is_free_of_nul(config.allowed_execute@) && super::is_free_of_nul(
            config.allowed_refer@,
        ) && super::is_free_of_nul(config.allowed_truncate@) && super::is_free_of_nul(
            config.allowed_ioctl_dev@,
        ),
{
    super::lemma_list_error(config.allowed_read@, "landlock path"@);
    super::lemma_list_error(config.allowed_write@, "landlock path"@);
    super::lemma_list_error(config.allowed_execute@, "landlock path"@);
    super::lemma_list_error(config.allowed_refer@, "landlock path"@);
    super::lemma_list_error(config.allowed_truncate@, "landlock path"@);
    super::lemma_list_error(config.allowed_ioctl_dev@, "landlock path"@);
}

/// Of several paths that hold a NUL the first is named, where the lists come in the
/// order of reading, writing, executing, referring, truncating and device control.
pub proof fn law_first_wrong_path_is_named(
    config: Landlock,
    arena: &bumpalo::Bump,
    r: Result<LandlockSpec, BuildError>,
    paths: Seq<String>,
    i: int,
)
    requires
        call_ensures(Landlock::prepare, (&config, arena), r),
        paths == config.allowed_read@ + config.allowed_write@ + config.allowed_execute@
            + config.allowed_refer@ + config.allowed_truncate@ + config.allowed_ioctl_dev@,
        0 <= i < paths.len(),
        super::is_free_of_nul(paths.take(i)),
        crate::arena::has_nul(paths[i]@),
    ensures
        r matches Err(BuildError::InvalidConfig(message)) && message@ == "landlock path"@
            + ": interior null byte in \""@ + paths[i]@ + "\""@,
{
    let context = "landlock path"@;
    let a = config.allowed_read@;
    let b = a + config.allowed_write@;
    let c = b + config.allowed_execute@;
    let d = c + config.allowed_refer@;
    let e = d + config.allowed_truncate@;
    super::lemma_first_is_named(paths, context, i);
    super::lemma_list_error_concat(
        a,
        config.allowed_write@,
        context,
        config.allowed_write@.len() as int,
    );
    super::lemma_list_error_concat(
        b,
        config.allowed_execute@,
        context,
        config.allowed_execute@.len() as int,
    );
    super::lemma_list_error_concat(
        c,
        config.allowed_refer@,
        context,
        config.allowed_refer@.len() as int,
    );
    super::lemma_list_error_concat(
        d,
        config.allowed_truncate@,
        context,
        config.allowed_truncate@.len() as int,
    );
    super::lemma_list_error_concat(
        e,
        config.allowed_ioctl_dev@,
        context,
        config.allowed_ioctl_dev@.len() as int,
    );
}

} // verus!
