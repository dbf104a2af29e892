//! A minimal process supervisor for running as PID 1 inside an isolated
//! process namespace: it launches one designated child command, forwards an
//! interrupt signal to that child, and reaps every exited descendant until
//! the designated child itself has been reaped.
//!
//! The decision logic of the supervisor lives here, verified: command-line
//! parsing, the process-identifier conversion check, the event counter that
//! bridges the signal handler and the reaper task, and the drain discipline
//! of the reaper loop. The surrounding binary performs the actual system
//! calls and drives this logic.

pub mod error;
pub mod events;
pub mod launcher;
pub mod reaper;
