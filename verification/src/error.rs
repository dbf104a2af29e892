//! The terminal outcomes of a supervisor run.
//!
//! Every failure is fatal: an init process has no degraded mode, so each
//! error propagates to the top level and the process exits non-zero.

use vstd::prelude::*;

verus! {

/// `std::io::Error` carries the operating-system failure behind a spawn or a
/// signal-registration call. It is opaque here: the supervisor only stores
/// and reports it.
#[verifier::external_type_specification]
#[verifier::external_body]
pub struct ExIoError(std::io::Error);

/// Why a supervisor run failed.
#[derive(Debug)]
pub enum Pid1Error {
    /// An underlying operating-system call failed (spawning the child, or
    /// registering a signal handler). Always fatal.
    IOError(std::io::Error),
    /// No command argument was supplied after the program name. Raised
    /// before any process is spawned or any signal handler installed.
    NoCommandGiven,
    /// The spawned child's process identifier does not fit the signed
    /// integer width of the signal and wait interfaces. The raw identifier
    /// is kept for diagnostics.
    ChildPidTooBig(u32),
}

impl From<std::io::Error> for Pid1Error {
    fn from(e: std::io::Error) -> Self {
        Pid1Error::IOError(e)
    }
}

impl vstd::std_specs::convert::FromSpecImpl<std::io::Error> for Pid1Error {
    open spec fn obeys_from_spec() -> bool {
        true
    }

    open spec fn from_spec(e: std::io::Error) -> Self {
        Pid1Error::IOError(e)
    }
}

/// The process exit status for a finished run: zero exactly on success,
/// one on any fatal error.
pub fn exit_status(r: &Result<(), Pid1Error>) -> (code: i32)
    ensures
        code == 0 <==> r is Ok,
        r is Err ==> code == 1,
{
    match r {
        Result::Ok(()) => 0,
        Result::Err(_) => 1,
    }
}

} // verus!
