//! Sandbox planning, child setup and supervision for Linux.
//!
//! The parent turns a [`config::Sandbox`] into a [`ChildSpec`], starts a child
//! in new namespaces and supervises it. The child carries out the spec and
//! executes the command. This crate holds the decisions of both sides; the
//! system calls themselves are performed by the embedding program, which runs
//! the machines of [`launch`], [`supervise`], [`runtime`], [`mount`] and [`io`]:
//! it performs the command it is given and hands back what the kernel answered.
//!
//! What runs in the child allocates nothing.

pub mod arena;
pub mod bytes;
pub mod child;
pub mod clone;
pub mod completion;
pub mod config;
pub mod error;
pub mod failure;
pub mod idmap;
pub mod io;
pub mod launch;
pub mod mount;
pub mod net;
pub mod prepare;
pub mod report;
pub mod runtime;
pub mod seccomp;
pub mod supervise;
pub mod sys;
pub mod text;
pub mod zstr;

pub use child::{
    BindMount, BindMountSource, CapsSpec, ChildSpec, EnvBinding, EnvSpec, EnvStorage, ExecSpec,
    FdAction, FdSpec, FileMount, FilterProgram, HidePid, LandlockNetRule, LandlockPathRule,
    LandlockRulesetAttr, LandlockSpec, MountEntry, MountPlan, MqueueMount, ProcMount, ProcSubset,
    ProcessSpec, Rlimit, RlimitEntry, RlimitSpec, SeccompSpec, TmpfsMount,
};
pub use completion::{
    CompletionDecodeError, CompletionRecord, CompletionSink, COMPLETE_STAGE_MASK,
    COMPLETION_BINDING_LEN, COMPLETION_RECORD_LEN,
};
pub use error::Errno;
pub use mount::{MountPrepareError, PreparedBindMount};
pub use report::{ChildFailure, Stage};
pub use seccomp::{install_seccomp, SeccompInstallError};
pub use zstr::ZStr;
