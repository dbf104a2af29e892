//! Launching the designated child: command-line parsing and the
//! process-identifier conversion check.

use vstd::prelude::*;
use crate::error::Pid1Error;

verus! {

/// Splits the supervisor's invocation arguments into the command to execute
/// and the arguments to pass to it.
///
/// `args` is the full argument vector, program name first. The first
/// argument after the program name is the command; everything after it is
/// handed to the command unmodified, in order. With no argument after the
/// program name the run fails with `NoCommandGiven`, before any process is
/// spawned.
pub fn parse_command(args: &Vec<String>) -> (r: Result<(String, Vec<String>), Pid1Error>)
    ensures
        args@.len() < 2 ==> (r matches Err(e) && e == Pid1Error::NoCommandGiven),
        args@.len() >= 2 ==> (r matches Ok((cmd, rest)) && {
            &&& cmd == args@[1]
            &&& rest@.len() == args@.len() - 2
            &&& forall|i: int| 0 <= i < rest@.len() ==> rest@[i] == args@[i + 2]
        }),
{
    if args.len() < 2 {
        return Err(Pid1Error::NoCommandGiven);
    }
    let cmd = args[1].clone();
    let mut rest: Vec<String> = Vec::new();
    let mut i: usize = 2;
    while i < args.len()
        invariant
            2 <= i <= args@.len(),
            rest@.len() == i - 2,
            forall|j: int| 0 <= j < rest@.len() ==> rest@[j] == args@[j + 2],
        decreases args@.len() - i,
    {
        rest.push(args[i].clone());
        i = i + 1;
    }
    Ok((cmd, rest))
}

/// Narrows the operating system's unsigned child identifier to the signed
/// width that the signal and wait interfaces require. The check is
/// defensive: identifiers this large are never expected, but a child that
/// cannot be represented cannot be supervised, so the run fails with
/// `ChildPidTooBig` carrying the raw value.
pub fn convert_pid(raw: u32) -> (r: Result<i32, Pid1Error>)
    ensures
        raw <= i32::MAX ==> r == Ok::<i32, Pid1Error>(raw as i32),
        raw > i32::MAX ==> r == Err::<i32, Pid1Error>(Pid1Error::ChildPidTooBig(raw)),
{
    if raw <= i32::MAX as u32 {
        Ok(raw as i32)
    } else {
        Err(Pid1Error::ChildPidTooBig(raw))
    }
}

} // verus!
