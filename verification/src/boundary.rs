//! The one place where the library handles a value of the protocol
//! client's own types: reading the origin and code out of the client's
//! error so that the verified layer can decide — on plain values — whether
//! a failure is the transient "would block" report or a genuine error to
//! surface.

use vstd::prelude::*;

use crate::error::SftpError;

verus! {

/// The protocol client's error value, opaque to the verifier.
#[verifier::external_type_specification]
#[verifier::external_body]
pub struct ExError(ssh2::Error);

/// The protocol client's error-code discriminator, opaque to the
/// verifier.
#[verifier::external_type_specification]
#[verifier::external_body]
pub struct ExErrorCode(ssh2::ErrorCode);

/// Relies on ssh2::Error::code: reads the code the error carries and
/// tells its two origins apart — `(true, code)` for a session-level
/// libssh2 code, `(false, code)` for an SFTP subsystem status code.
/// Moves the code out, one match arm per origin, nothing more.
#[verifier::external_body]
fn raw_code(failure: &ssh2::Error) -> (origin_code: (bool, i32)) {
    match failure.code() {
        ssh2::ErrorCode::Session(code) => (true, code),
        ssh2::ErrorCode::SFTP(code) => (false, code),
    }
}

/// Builds the library's error value from an origin flag and the code it
/// came with: a session-level failure or a protocol status, the code kept
/// unchanged.
pub fn error_from_parts(session: bool, code: i32) -> (error: SftpError)
    ensures
        error == if session {
            SftpError::Session(code)
        } else {
            SftpError::Protocol(code)
        },
{
    if session {
        SftpError::Session(code)
    } else {
        SftpError::Protocol(code)
    }
}

/// Turns a protocol client error into the library's error value: the
/// origin and code are read out of the client's error and carried over
/// unchanged, so the retry machinery can recognize the "would block"
/// session code and every other failure keeps its identity. Which origin
/// and code come out is decided by the client's value alone.
pub fn error_of_client(failure: &ssh2::Error) -> (error: SftpError) {
    let (session, code) = raw_code(failure);
    error_from_parts(session, code)
}

} // verus!
