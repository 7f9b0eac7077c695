//! Toggles of the child process.

use vstd::prelude::*;

use crate::child::ProcessSpec;
use crate::config::ProcessOptions;
use crate::error::BuildError;
use crate::sys::{PR_MDWE_REFUSE_EXEC_GAIN, SIGKILL};

verus! {

impl ProcessOptions {
    /// The toggles as the child applies them.
    pub open spec fn prepared(self) -> ProcessSpec {
        ProcessSpec {
            pdeathsig: if self.die_with_parent {
                Some(SIGKILL)
            } else {
                None
            },
            verify_parent_alive: self.die_with_parent,
            dumpable: self.dumpable,
            new_session: self.new_session,
            disable_tsc: self.disable_tsc,
            no_new_privs: self.no_new_privs,
            mdwe_flags: if self.mdwe {
                Some(PR_MDWE_REFUSE_EXEC_GAIN)
            } else {
                None
            },
        }
    }

    /// Prepares the toggles. Nothing can be wrong with them.
    pub fn prepare(&self, _arena: &bumpalo::Bump) -> (r: Result<ProcessSpec, BuildError>)
        ensures
            r == Ok::<ProcessSpec, BuildError>(self.prepared()),
    {
        Ok(
            ProcessSpec {
                pdeathsig: if self.die_with_parent {
                    Some(SIGKILL)
                } else {
                    None
                },
                verify_parent_alive: self.die_with_parent,
                dumpable: self.dumpable,
                new_session: self.new_session,
                disable_tsc: self.disable_tsc,
                no_new_privs: self.no_new_privs,
                mdwe_flags: if self.mdwe {
                    Some(PR_MDWE_REFUSE_EXEC_GAIN)
                } else {
                    None
                },
            },
        )
    }
}

/// Each toggle is passed on as it is. A child that is to die with its parent asks
/// for the signal that kills it, and makes sure that the parent is still there;
/// no other child does either.
pub proof fn law_toggles_are_passed_on(
    config: ProcessOptions,
    arena: &bumpalo::Bump,
    r: Result<ProcessSpec, BuildError>,
)
    requires
        call_ensures(ProcessOptions::prepare, (&config, arena), r),
    ensures
        r matches Ok(process) && {
            &&& config.die_with_parent ==> process.pdeathsig == Some(SIGKILL)
                && process.verify_parent_alive
            &&& !config.die_with_parent ==> process.pdeathsig is None
                && !process.verify_parent_alive
            &&& process.dumpable == config.dumpable
            &&& process.new_session == config.new_session
            &&& process.disable_tsc == config.disable_tsc
            &&& process.no_new_privs == config.no_new_privs
            &&& config.mdwe ==> process.mdwe_flags == Some(PR_MDWE_REFUSE_EXEC_GAIN)
            &&& !config.mdwe ==> process.mdwe_flags is None
        },
{
}

} // verus!
