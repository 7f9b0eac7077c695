//! Error values.

use vstd::prelude::*;

use crate::report::Stage;

verus! {

/// A Linux error number.
#[derive(Clone, Copy, Debug, PartialEq, Eq, Structural)]
pub struct Errno(pub i32);

impl Errno {
    /// The error with the given number.
    pub fn new(number: i32) -> (r: Self)
        ensures
            r == Errno(number),
    {
        Errno(number)
    }
}

/// Takes the result of a system call that returns a descriptor, or a negative
/// number and sets `errno`.
pub fn opened(ret: i32, errno: Errno) -> (r: Result<i32, Errno>)
    ensures
        r == if ret >= 0 {
            Ok::<i32, Errno>(ret)
        } else {
            Err::<i32, Errno>(errno)
        },
{
    if ret < 0 {
        Err(errno)
    } else {
        Ok(ret)
    }
}

/// Takes the result of a system call that returns zero, or anything else and
/// sets `errno`.
pub fn succeeded(ret: i64, errno: Errno) -> (r: Result<(), Errno>)
    ensures
        r == if ret == 0 {
            Ok::<(), Errno>(())
        } else {
            Err::<(), Errno>(errno)
        },
{
    if ret == 0 {
        Ok(())
    } else {
        Err(errno)
    }
}

/// Why a sandbox could not be prepared.
#[derive(Debug)]
pub enum BuildError {
    /// The configuration asks for something that cannot be.
    InvalidConfig(String),
}

/// A part of the parent's work.
#[derive(Clone, Copy, Debug, PartialEq, Eq, Structural)]
pub enum SetupStage {
    /// Starting the child.
    Clone,
    /// Writing the maps of user and group ids.
    IdMap,
}

/// Why an input or output operation of the parent failed.
#[derive(Debug)]
pub enum Cause {
    /// The system refused it.
    Os(Errno),
    /// It failed otherwise.
    Text(String),
}

/// Why a sandbox could not be run.
#[derive(Debug)]
pub enum Error {
    /// It could not be prepared.
    Build(BuildError),
    /// The parent failed.
    Setup { stage: SetupStage, context: String, source: Cause },
    /// The child failed before its command was executed.
    ChildSetup { stage: Stage, errno: i32, detail: i32, exit_code: i32, message: String },
    /// Something else failed.
    Other(String),
}

/// A call that returns a descriptor has succeeded exactly if what it returned is not
/// negative, and one that returns nothing exactly if it returned zero; the result
/// and the error number are passed on as they are.
pub proof fn law_when_a_call_succeeds(
    ret: i32,
    long: i64,
    errno: Errno,
    a: Result<i32, Errno>,
    b: Result<(), Errno>,
)
    requires
        call_ensures(opened, (ret, errno), a),
        call_ensures(succeeded, (long, errno), b),
    ensures
        a is Ok <==> ret >= 0,
        a matches Ok(fd) ==> fd == ret,
        a matches Err(err) ==> err == errno,
        b is Ok <==> long == 0,
        b matches Err(err) ==> err == errno,
{
}

} // verus!
