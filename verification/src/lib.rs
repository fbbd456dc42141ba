//! Adaptation logic for driving a blocking SFTP client through a readiness
//! reactor so that callers can await filesystem operations cooperatively.
//!
//! The blocking protocol client and the reactor are external collaborators:
//! the former either completes a call or reports a distinguished "would
//! block" condition, the latter suspends a task until the transport is ready
//! for a requested I/O direction. What this crate verifies is the layer in
//! between: how each operation is classified into a readiness direction, how
//! a "would block" report turns into exactly one suspension and a retry, how
//! partial reads and writes are resumed without losing or duplicating bytes,
//! and how errors are surfaced verbatim. The asynchronous shell that owns
//! the real session handle lives outside the verified library and forwards
//! every decision to the functions defined here.

pub mod boundary;
pub mod error;
pub mod flags;
pub mod session;
pub mod stream;
pub mod suspend;
