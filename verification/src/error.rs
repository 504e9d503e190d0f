//! The ways in which a snapshot, or the work on one process, can fail.

use vstd::prelude::*;

verus! {

/// A failure reported while taking a snapshot.
///
/// Only [`Error::EnumerationFailed`] ends a run. The other kinds concern one
/// process, which is then left out of the result.
#[derive(Clone, Copy, Debug, PartialEq, Eq, Structural)]
pub enum Error {
    /// The query for the process identifiers failed; `code` is the system's
    /// error code.
    EnumerationFailed { code: u32 },
    /// The system handed out no handle for process `pid`.
    OpenFailed { pid: u32, code: u32 },
    /// A query for the modules of process `pid` failed.
    ModuleQueryFailed { pid: u32, code: u32 },
    /// The system wrote no name for the module of process `pid`.
    NameResolutionFailed { pid: u32, code: u32 },
    /// The name of the module of process `pid` is not well-formed UTF-8.
    NameDecodeFailed { pid: u32 },
}

impl Error {
    /// Whether this failure ends the whole run.
    pub open spec fn fatal(self) -> bool {
        self is EnumerationFailed
    }

    /// The process that the failure concerns, if it concerns one.
    pub open spec fn subject(self) -> Option<u32> {
        match self {
            Error::EnumerationFailed { .. } => None,
            Error::OpenFailed { pid, .. } => Some(pid),
            Error::ModuleQueryFailed { pid, .. } => Some(pid),
            Error::NameResolutionFailed { pid, .. } => Some(pid),
            Error::NameDecodeFailed { pid } => Some(pid),
        }
    }

    /// The system's error code, where the system reported the failure.
    pub open spec fn os_code(self) -> Option<u32> {
        match self {
            Error::EnumerationFailed { code } => Some(code),
            Error::OpenFailed { code, .. } => Some(code),
            Error::ModuleQueryFailed { code, .. } => Some(code),
            Error::NameResolutionFailed { code, .. } => Some(code),
            Error::NameDecodeFailed { .. } => None,
        }
    }

    /// Whether this failure ends the whole run rather than the work on one
    /// process.
    pub fn is_fatal(&self) -> (fatal: bool)
        ensures
            fatal == self.fatal(),
    {
        match self {
            Error::EnumerationFailed { .. } => true,
            _ => false,
        }
    }

    /// The identifier of the process that the failure concerns.
    pub fn pid(&self) -> (pid: Option<u32>)
        ensures
            pid == self.subject(),
    {
        match self {
            Error::EnumerationFailed { .. } => None,
            Error::OpenFailed { pid, .. } => Some(*pid),
            Error::ModuleQueryFailed { pid, .. } => Some(*pid),
            Error::NameResolutionFailed { pid, .. } => Some(*pid),
            Error::NameDecodeFailed { pid } => Some(*pid),
        }
    }

    /// The error code that the system attached to the failure.
    pub fn code(&self) -> (code: Option<u32>)
        ensures
            code == self.os_code(),
    {
        match self {
            Error::EnumerationFailed { code } => Some(*code),
            Error::OpenFailed { code, .. } => Some(*code),
            Error::ModuleQueryFailed { code, .. } => Some(*code),
            Error::NameResolutionFailed { code, .. } => Some(*code),
            Error::NameDecodeFailed { .. } => None,
        }
    }
}

} // verus!
