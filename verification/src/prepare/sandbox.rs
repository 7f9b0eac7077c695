//! The sandbox as a whole.

use vstd::prelude::*;

use super::mounts::SourceStat;
use super::seccomp::prepare_seccomp;
use crate::arena::alloc_cstr;
use crate::child::{ChildSpec, FdSpec};
use crate::config::Sandbox;
use crate::error::BuildError;

verus! {

/// What the parent finds out before it prepares a sandbox.
#[derive(Debug)]
pub struct Host {
    /// How many variables its own environment has.
    pub inherited: usize,
    /// Of each mount, what its source is.
    pub sources: Vec<SourceStat>,
}

/// Whether no descriptor is touched and every descriptor is closed.
pub open spec fn is_default_fds(r: FdSpec) -> bool {
    r.actions@.len() == 0 && r.keep@.len() == 0 && r.close_fds
}

impl Sandbox {
    /// The hostname that is set: it takes a UTS namespace of its own.
    pub open spec fn hostname(self) -> Option<String> {
        if self.namespaces.uts {
            self.namespaces.hostname
        } else {
            None
        }
    }

    /// What is wrong with the sandbox, if anything is.
    pub open spec fn error(self, host: Host) -> Option<Seq<char>> {
        super::first(
            self.command.error(),
            super::first(
                crate::arena::nul_error(self.command.cwd@, "working directory"@),
                super::first(
                    match self.hostname() {
                        Some(hostname) => crate::arena::nul_error(hostname@, "hostname"@),
                        None => None,
                    },
                    super::first(
                        match self.env {
                            Some(env) => env.error(),
                            None => None,
                        },
                        super::first(
                            self.mounts.error(host.sources@),
                            match self.landlock {
                                Some(landlock) => landlock.error(),
                                None => None,
                            },
                        ),
                    ),
                ),
            ),
        )
    }

    /// Whether `r` is the sandbox, part by part. There are no control pipes yet,
    /// and no completion evidence is asked for.
    pub open spec fn yields(self, host: Host, r: ChildSpec) -> bool {
        &&& r.sync_fd is None
        &&& r.status_fd is None
        &&& r.completion is None
        &&& r.process == self.process.prepared()
        &&& match r.mounts {
            Some(plan) => self.mounts.entries@.len() > 0 && self.mounts.yields(
                host.sources@,
                plan,
            ),
            None => self.mounts.entries@.len() == 0,
        }
        &&& match r.hostname {
            Some(z) => self.hostname() matches Some(hostname) && crate::arena::is_text(
                z,
                hostname@,
            ),
            None => self.hostname() is None,
        }
        &&& r.bring_up_loopback == self.namespaces.net
        &&& match r.env {
            Some(env) => self.env matches Some(config) && config.yields(host.inherited, env),
            None => self.env is None,
        }
        &&& match r.rlimits {
            Some(limits) => self.rlimits matches Some(config) && limits.limits@
                == config.entries(),
            None => self.rlimits is None,
        }
        &&& match r.landlock {
            Some(ruleset) => self.landlock matches Some(config) && config.yields(ruleset),
            None => self.landlock is None,
        }
        &&& match r.caps {
            Some(caps) => self.capabilities matches Some(config) && config.yields(caps),
            None => self.capabilities is None,
        }
        &&& match self.fd {
            Some(config) => config.yields(r.fds),
            None => is_default_fds(r.fds),
        }
        &&& match r.seccomp {
            Some(filter) => self.seccomp_program matches Some(program)
                && super::seccomp::is_filter(super::seccomp::bpf_instructions(program), filter),
            None => self.seccomp_program is None,
        }
        &&& r.cwd matches Some(z) && crate::arena::is_text(z, self.command.cwd@)
        &&& self.command.yields(r.command)
    }

    /// Prepares the sandbox. `host` says what the parent found out beforehand.
    pub fn prepare<'a>(&'a self, arena: &'a bumpalo::Bump, host: &Host) -> (r: Result<
        ChildSpec<'a>,
        BuildError,
    >)
        requires
            self.command.args@.len() > 0,
            host.sources@.len() == self.mounts.entries@.len(),
        ensures
            match r {
                Ok(child) => self.error(*host) is None && self.yields(*host, child),
                Err(BuildError::InvalidConfig(message)) => self.error(*host) == Some(message@),
            },
    {
        let command = self.command.prepare(arena)?;
        let process = self.process.prepare(arena)?;
        let cwd = Some(alloc_cstr(arena, self.command.cwd.as_str(), "working directory")?);
        let hostname = match &self.namespaces.hostname {
            Some(hostname) => if self.namespaces.uts {
                Some(alloc_cstr(arena, hostname.as_str(), "hostname")?)
            } else {
                None
            },
            None => None,
        };
        let env = match &self.env {
            Some(env) => Some(env.prepare(arena, host.inherited)?),
            None => None,
        };
        let rlimits = match &self.rlimits {
            Some(rlimits) => Some(rlimits.prepare(arena)?),
            None => None,
        };
        let mounts = if self.mounts.entries.len() == 0 {
            None
        } else {
            Some(self.mounts.prepare(arena, host.sources.as_slice())?)
        };
        let landlock = match &self.landlock {
            Some(landlock) => Some(landlock.prepare(arena)?),
            None => None,
        };
        let caps = match &self.capabilities {
            Some(capabilities) => Some(capabilities.prepare(arena)?),
            None => None,
        };
        let fds = match &self.fd {
            Some(fd) => fd.prepare(arena)?,
            None => FdSpec::default(),
        };
        let seccomp = match &self.seccomp_program {
            Some(program) => Some(prepare_seccomp(program)),
            None => None,
        };
        Ok(
            ChildSpec {
                sync_fd: None,
                status_fd: None,
                completion: None,
                process,
                mounts,
                hostname,
                bring_up_loopback: self.namespaces.net,
                env,
                rlimits,
                landlock,
                caps,
                fds,
                seccomp,
                cwd,
                command,
            },
        )
    }
}

/// A child that was prepared from a sandbox is never turned away: whatever
/// control pipes it is given afterwards, it starts with the first step that it
/// was asked for.
pub proof fn law_prepared_child_is_accepted(
    sandbox: Sandbox,
    host: Host,
    prepared: ChildSpec,
    child: &ChildSpec,
)
    requires
        sandbox.yields(host, prepared),
        child.completion == prepared.completion,
    ensures
        crate::runtime::starting(child) is Performing,
{
    crate::runtime::lemma_first_enabled(child, 0);
}

/// Every part of a sandbox reaches the child: a part that is configured is there,
/// as it is prepared by itself, and a part that is not configured is not.
pub proof fn law_every_part_reaches_the_child(
    sandbox: Sandbox,
    arena: &bumpalo::Bump,
    host: Host,
    r: Result<ChildSpec, BuildError>,
    i: int,
)
    requires
        sandbox.command.args@.len() > 0,
        host.sources@.len() == sandbox.mounts.entries@.len(),
        call_ensures(Sandbox::prepare, (&sandbox, arena, &host), r),
        r is Ok,
    ensures
        r->Ok_0.command.path@ == vstd::utf8::encode_utf8(sandbox.command.args@[0]@),
        r->Ok_0.command.argv@.len() == sandbox.command.args@.len() + 1,
        1 <= i < sandbox.command.args@.len() ==> (r->Ok_0.command.argv@[i] matches Some(z) && z@
            == vstd::utf8::encode_utf8(sandbox.command.args@[i]@)),
        r->Ok_0.cwd matches Some(z) && z@ == vstd::utf8::encode_utf8(sandbox.command.cwd@),
        r->Ok_0.hostname is Some <==> sandbox.namespaces.uts && sandbox.namespaces.hostname is Some,
        r->Ok_0.hostname matches Some(z) ==> z@ == vstd::utf8::encode_utf8(
            sandbox.namespaces.hostname->0@,
        ),
        r->Ok_0.bring_up_loopback == sandbox.namespaces.net,
        sandbox.command.yields(r->Ok_0.command),
        sandbox.process.die_with_parent ==> r->Ok_0.process.pdeathsig == Some(9i32),
        !sandbox.process.die_with_parent ==> r->Ok_0.process.pdeathsig is None,
        r->Ok_0.process.verify_parent_alive == sandbox.process.die_with_parent,
        r->Ok_0.process.dumpable == sandbox.process.dumpable,
        r->Ok_0.process.new_session == sandbox.process.new_session,
        r->Ok_0.process.disable_tsc == sandbox.process.disable_tsc,
        r->Ok_0.process.no_new_privs == sandbox.process.no_new_privs,
        sandbox.process.mdwe ==> r->Ok_0.process.mdwe_flags == Some(1u64),
        !sandbox.process.mdwe ==> r->Ok_0.process.mdwe_flags is None,
        r->Ok_0.env is Some <==> sandbox.env is Some,
        sandbox.env matches Some(config) ==> config.yields(host.inherited, r->Ok_0.env->0),
        r->Ok_0.rlimits is Some <==> sandbox.rlimits is Some,
        sandbox.rlimits matches Some(config) ==> r->Ok_0.rlimits->0.limits@ == config.entries(),
        r->Ok_0.mounts is Some <==> sandbox.mounts.entries@.len() > 0,
        r->Ok_0.mounts matches Some(plan) ==> plan.entries@.len() == sandbox.mounts.entries@.len(),
        0 <= i < sandbox.mounts.entries@.len() ==> sandbox.mounts.entries@[i].yields(
            host.sources@[i],
            r->Ok_0.mounts->0.entries@[i],
        ),
        r->Ok_0.landlock is Some <==> sandbox.landlock is Some,
        sandbox.landlock matches Some(config) ==> config.yields(r->Ok_0.landlock->0),
        r->Ok_0.caps is Some <==> sandbox.capabilities is Some,
        sandbox.capabilities matches Some(config) ==> config.yields(r->Ok_0.caps->0),
        sandbox.fd matches Some(config) ==> config.yields(r->Ok_0.fds),
        sandbox.fd is None ==> r->Ok_0.fds.close_fds && r->Ok_0.fds.actions@.len() == 0
            && r->Ok_0.fds.keep@.len() == 0,
        r->Ok_0.seccomp is Some <==> sandbox.seccomp_program is Some,
        sandbox.seccomp_program matches Some(program) ==> r->Ok_0.seccomp->0.program.filter@
            == super::seccomp::bpf_instructions(program) && super::seccomp::is_filter(
            super::seccomp::bpf_instructions(program),
            r->Ok_0.seccomp->0,
        ),
        r->Ok_0.sync_fd is None && r->Ok_0.status_fd is None && r->Ok_0.completion is None,
{
    let child = r->Ok_0;
    if 1 <= i < sandbox.command.args@.len() {
        assert(child.command.argv@[i] is Some);
    }
    if 0 <= i < sandbox.mounts.entries@.len() {
        assert(sandbox.mounts.entries@[i].yields(host.sources@[i], child.mounts->0.entries@[i]));
    }
}

/// A sandbox is refused exactly if one of its parts is, and the message is that of
/// the first such part: the command, the working directory, the hostname, the
/// environment, the mounts and the Landlock ruleset, in this order. The hostname
/// matters only where it is set.
pub proof fn law_first_wrong_part_is_named(
    sandbox: Sandbox,
    arena: &bumpalo::Bump,
    host: Host,
    r: Result<ChildSpec, BuildError>,
    command: Result<crate::child::ExecSpec, BuildError>,
    env: Result<crate::child::EnvSpec, BuildError>,
    mounts: Result<crate::child::MountPlan, BuildError>,
    landlock: Result<crate::child::LandlockSpec, BuildError>,
    stats: &[SourceStat],
)
    requires
        sandbox.command.args@.len() > 0,
        host.sources@.len() == sandbox.mounts.entries@.len(),
        stats@ == host.sources@,
        call_ensures(Sandbox::prepare, (&sandbox, arena, &host), r),
        call_ensures(crate::config::Command::prepare, (&sandbox.command, arena), command),
        sandbox.env is Some ==> call_ensures(
            crate::config::Environment::prepare,
            (&sandbox.env->0, arena, host.inherited),
            env,
        ),
        call_ensures(crate::config::Table::prepare, (&sandbox.mounts, arena, stats), mounts),
        sandbox.landlock is Some ==> call_ensures(
            crate::config::Landlock::prepare,
            (&sandbox.landlock->0, arena),
            landlock,
        ),
    ensures
        command is Err ==> is_said_again(command, r),
        command is Ok && crate::arena::has_nul(sandbox.command.cwd@) ==> (r matches Err(
            BuildError::InvalidConfig(message),
        ) && message@ == "working directory"@ + ": interior null byte in \""@
            + sandbox.command.cwd@ + "\""@),
        command is Ok && !crate::arena::has_nul(sandbox.command.cwd@) ==> {
            let hostname_is_wrong = sandbox.namespaces.uts && sandbox.namespaces.hostname is Some
                && crate::arena::has_nul(sandbox.namespaces.hostname->0@);
            &&& hostname_is_wrong ==> (r matches Err(BuildError::InvalidConfig(message))
                && message@ == "hostname"@ + ": interior null byte in \""@
                + sandbox.namespaces.hostname->0@ + "\""@)
            &&& !hostname_is_wrong && sandbox.env is Some && env is Err ==> is_said_again(env, r)
            &&& !hostname_is_wrong && (sandbox.env is Some ==> env is Ok) && mounts is Err
                ==> is_said_again(mounts, r)
            &&& !hostname_is_wrong && (sandbox.env is Some ==> env is Ok) && mounts is Ok
                && sandbox.landlock is Some && landlock is Err ==> is_said_again(landlock, r)
            &&& !hostname_is_wrong && (sandbox.env is Some ==> env is Ok) && mounts is Ok && (
            sandbox.landlock is Some ==> landlock is Ok) ==> r is Ok
        },
{
}

/// Whether the failure `a` is told again by `b`, word for word.
pub open spec fn is_said_again<S, T>(a: Result<S, BuildError>, b: Result<T, BuildError>) -> bool {
    &&& a matches Err(BuildError::InvalidConfig(said))
    &&& b matches Err(BuildError::InvalidConfig(message))
    &&& message@ == said@
}

} // verus!
