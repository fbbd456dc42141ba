//! The error taxonomy of the adaptation layer.
//!
//! A blocking call either completes, fails at the transport/session level
//! (a negative libssh2 session code), or fails inside the SFTP subsystem
//! (a positive protocol status code). One session code is special: the
//! "would block" report, which is not an error at all but a request to wait
//! for readiness and retry. The layer consumes it internally; every other
//! failure is surfaced to the caller unmodified.

use vstd::prelude::*;

verus! {

/// Session-level code with which libssh2 reports that an operation cannot
/// make progress right now and must be retried once the transport is ready.
pub const ERR_EAGAIN: i32 = -37;

/// Protocol status code for "no such file".
pub const FX_NO_SUCH_FILE: i32 = 2;

/// Protocol status code for "permission denied".
pub const FX_PERMISSION_DENIED: i32 = 3;

/// Protocol status code with which the server rejects a rename whose
/// destination already exists when no overwrite flag was supplied.
pub const FX_FILE_ALREADY_EXISTS: i32 = 11;

/// A failure reported by the blocking protocol client, kept exactly as the
/// client reported it: this layer never rewrites an error, it only decides
/// whether the failure is the transient "would block" condition.
#[derive(Clone, Copy, Debug, PartialEq, Eq, Structural)]
pub enum SftpError {
    /// An error that originates in the session or transport, carrying a
    /// libssh2 session error code.
    Session(i32),
    /// An error that originates in the SFTP subsystem, carrying a protocol
    /// status code.
    Protocol(i32),
}

impl SftpError {
    /// The transient non-completion report: a session-level "would block".
    pub open spec fn spec_is_would_block(self) -> bool {
        self == SftpError::Session(ERR_EAGAIN)
    }

    /// Decides whether this failure means "retry after readiness changes".
    ///
    /// The whole retry machinery hinges on this condition being
    /// distinguishable from a genuine error: exactly the session code
    /// `ERR_EAGAIN` is transient, everything else is fatal to the operation.
    pub fn is_would_block(&self) -> (transient: bool)
        ensures
            transient == self.spec_is_would_block(),
    {
        match self {
            SftpError::Session(code) => *code == ERR_EAGAIN,
            SftpError::Protocol(_) => false,
        }
    }

    /// The protocol's "already exists" rejection, reported when a rename
    /// finds its destination occupied and no overwrite flag was supplied.
    pub open spec fn spec_is_already_exists(self) -> bool {
        self == SftpError::Protocol(FX_FILE_ALREADY_EXISTS)
    }

    /// Decides whether this failure is the protocol's "already exists" error.
    pub fn is_already_exists(&self) -> (conflict: bool)
        ensures
            conflict == self.spec_is_already_exists(),
    {
        match self {
            SftpError::Session(_) => false,
            SftpError::Protocol(code) => *code == FX_FILE_ALREADY_EXISTS,
        }
    }
}

} // verus!
