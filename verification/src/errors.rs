//! Error values reported by the sandbox core.
use vstd::prelude::*;

verus! {

/// Failure reported by the external process runner for one engine invocation:
/// the command returned a nonzero status or could not be spawned at all.
/// The embedding program hands these to the library as plain values.
#[derive(Debug)]
pub struct CmdError {
    /// Human-readable context naming the failing operation.
    pub context: String,
}

/// The rule of the host/guest build comparison that rejected lightweight
/// process isolation.
#[derive(Copy, Clone, Debug, PartialEq, Eq, Structural)]
pub enum IncompatibilityReason {
    /// The two builds disagree on the major version.
    MajorVersionMismatch,
    /// The two builds disagree on the minor version.
    MinorVersionMismatch,
    /// The host build number is older than the guest's.
    HostOlderThanGuest,
    /// Same build, different revisions, below the servicing baseline that
    /// made revision drift tolerable.
    RevisionMismatch,
}

/// An error of the sandbox core, as seen by callers of the lifecycle and
/// resolution operations.
#[derive(Debug)]
pub enum Error {
    /// An engine or subprocess invocation failed; carries the failing
    /// operation's context.
    CommandFailure { context: String },
    /// The container was killed for exceeding its memory limit. If the start
    /// operation had already failed for its own reason, that context is kept
    /// alongside the out-of-memory fact.
    OutOfMemory { start_failure: Option<CmdError> },
    /// The metadata query returned zero or more than one record for a single
    /// container id; an engine-contract violation, not user-recoverable.
    InspectionInvariantViolation { records: usize },
    /// A build-number string did not contain exactly four dot-separated
    /// integer fields, or a field did not parse as an unsigned integer.
    VersionParseFailure,
    /// The host/guest build comparison refused every isolation mode.
    IsolationIncompatible { reason: IncompatibilityReason },
}

impl Clone for CmdError {
    /// Cloning keeps the context.
    fn clone(&self) -> (r: Self)
        ensures
            r == *self,
    {
        CmdError { context: self.context.clone() }
    }
}

impl Clone for Error {
    /// Cloning keeps the error's kind and payload; cached failures are
    /// shared by value this way.
    fn clone(&self) -> (r: Self)
        ensures
            r == *self,
    {
        match self {
            Error::CommandFailure { context } => Error::CommandFailure {
                context: context.clone(),
            },
            Error::OutOfMemory { start_failure } => Error::OutOfMemory {
                start_failure: match start_failure {
                    None => None,
                    Some(se) => Some(se.clone()),
                },
            },
            Error::InspectionInvariantViolation { records } => {
                Error::InspectionInvariantViolation { records: *records }
            },
            Error::VersionParseFailure => Error::VersionParseFailure,
            Error::IsolationIncompatible { reason } => Error::IsolationIncompatible {
                reason: *reason,
            },
        }
    }
}

impl Error {
    /// Whether this error reports an out-of-memory kill.
    pub fn is_out_of_memory(&self) -> (r: bool)
        ensures
            r == (self is OutOfMemory),
    {
        match self {
            Error::OutOfMemory { .. } => true,
            _ => false,
        }
    }
}

} // verus!
