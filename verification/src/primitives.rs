//! What the process-control primitives returned, and what that means.
//!
//! The calls themselves (pipe, fork, dup2, close, execvp) belong to the
//! program that drives the launch. It reports the raw return values here,
//! and each function below judges one of them: every primitive either
//! succeeded or failed beyond repair, except fork, whose failure is an
//! ordinary outcome.

use core::convert::Infallible;
use vstd::prelude::*;

verus! {

/// The descriptor of the standard input stream.
pub const STDIN_FILENO: i32 = 0;

/// The descriptor of the standard output stream.
pub const STDOUT_FILENO: i32 = 1;

/// Which of the processes around a fork this one is.
#[derive(Clone, Copy, Debug, PartialEq, Eq, Structural)]
pub enum ProcessRole {
    /// No second process came to be.
    LaunchFailed,
    /// The process that goes on with the caller's work.
    ContinuationProcess,
    /// The process that turns into the pager.
    PagerProcess,
}

/// Why a launch cannot go on. None of these can be recovered from: the
/// process that meets one is to terminate at once.
#[derive(Clone, Copy, Debug, PartialEq, Eq, Structural)]
pub enum Failure {
    /// No pipe could be created.
    Pipe,
    /// A descriptor could not be duplicated onto a standard stream.
    Duplicate,
    /// A descriptor could not be closed: it was invalid or closed already.
    Close,
    /// The pager could not be found or executed.
    Replace,
    /// An outcome was reported that the launch was not waiting for.
    OutOfTurn,
}

/// The two ends of a pipe, as descriptors.
#[derive(Clone, Copy, Debug, PartialEq, Eq, Structural)]
pub struct Pipe {
    pub read_end: i32,
    pub write_end: i32,
}

/// The role that a return value of fork stands for.
pub open spec fn role_of(pid: int) -> ProcessRole {
    if pid == -1 {
        ProcessRole::LaunchFailed
    } else if pid == 0 {
        ProcessRole::ContinuationProcess
    } else {
        ProcessRole::PagerProcess
    }
}

/// Whether a return value of pipe reports success.
pub open spec fn pipe_succeeded(status: int) -> bool {
    status == 0
}

/// Whether a return value of dup2 reports success.
pub open spec fn dup2_succeeded(status: int) -> bool {
    status > -1
}

/// Whether a return value of close reports success.
pub open spec fn close_succeeded(status: int) -> bool {
    status == 0
}

/// The descriptor that `libc::STDIN_FILENO` names: libc defines the constant
/// as 0, the standard input of every process.
#[verifier::external_body]
pub(crate) fn standard_input() -> (fd: i32)
    ensures
        fd == STDIN_FILENO,
{
    libc::STDIN_FILENO
}

/// The descriptor that `libc::STDOUT_FILENO` names: libc defines the constant
/// as 1, the standard output of every process.
#[verifier::external_body]
pub(crate) fn standard_output() -> (fd: i32)
    ensures
        fd == STDOUT_FILENO,
{
    libc::STDOUT_FILENO
}

/// Reads the role of this process off what fork returned: -1 when no child
/// was made, 0 in the child, the child's id in the parent. The child carries
/// on with the caller's work; the parent becomes the pager.
pub fn fork(pid: libc::pid_t) -> (role: ProcessRole)
    ensures
        role == role_of(pid as int),
{
    if pid == -1 {
        ProcessRole::LaunchFailed
    } else if pid == 0 {
        ProcessRole::ContinuationProcess
    } else {
        ProcessRole::PagerProcess
    }
}

/// Judges what pipe returned. `fds` is the array that the call filled: the
/// read end first, then the write end.
pub fn pipe(status: i32, fds: [i32; 2]) -> (result: Result<Pipe, Failure>)
    ensures
        result == if pipe_succeeded(status as int) {
            Ok::<Pipe, Failure>(Pipe { read_end: fds[0], write_end: fds[1] })
        } else {
            Err::<Pipe, Failure>(Failure::Pipe)
        },
{
    if status == 0 {
        Ok(Pipe { read_end: fds[0], write_end: fds[1] })
    } else {
        Err(Failure::Pipe)
    }
}

/// Judges what dup2 returned: the target descriptor on success, -1 otherwise.
pub fn dup2(status: i32) -> (result: Result<(), Failure>)
    ensures
        result == if dup2_succeeded(status as int) {
            Ok::<(), Failure>(())
        } else {
            Err::<(), Failure>(Failure::Duplicate)
        },
{
    if status > -1 {
        Ok(())
    } else {
        Err(Failure::Duplicate)
    }
}

/// Judges what close returned: 0 on success.
pub fn close(status: i32) -> (result: Result<(), Failure>)
    ensures
        result == if close_succeeded(status as int) {
            Ok::<(), Failure>(())
        } else {
            Err::<(), Failure>(Failure::Close)
        },
{
    if status == 0 {
        Ok(())
    } else {
        Err(Failure::Close)
    }
}

/// Judges what execvp returned. A process whose image was replaced never
/// sees the call return, so any return value at all reports a failure: the
/// success type has no values.
pub fn execvp(status: i32) -> (result: Result<Infallible, Failure>)
    ensures
        result == Err::<Infallible, Failure>(Failure::Replace),
{
    let _ = status;
    Err(Failure::Replace)
}

} // verus!
