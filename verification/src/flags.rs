//! Plain-value encodings of the open, rename and open-type parameters that
//! the blocking protocol client expects.
//!
//! The client takes these as bit sets and discriminators; the library keeps
//! them as structs of booleans so that every contract can speak about the
//! individual capabilities, and proves the exact bit encoding that is handed
//! across the boundary.

use vstd::prelude::*;

verus! {

/// Bit for opening a file readable.
pub const FXF_READ: u64 = 0x1;

/// Bit for opening a file writable.
pub const FXF_WRITE: u64 = 0x2;

/// Bit for forcing every write to append at the end of the file.
pub const FXF_APPEND: u64 = 0x4;

/// Bit for creating the file when it does not exist yet.
pub const FXF_CREATE: u64 = 0x8;

/// Bit for truncating an existing file to zero length; the protocol treats
/// it as implying creation.
pub const FXF_TRUNCATE: u64 = 0x10;

/// Bit for insisting that the file does not exist yet.
pub const FXF_EXCLUSIVE: u64 = 0x20;

/// How a remote file is to be opened. Each field stands for one protocol
/// open bit; [`OpenFlags::bits`] proves the exact encoding.
#[derive(Clone, Copy, Debug, PartialEq, Eq, Structural)]
pub struct OpenFlags {
    /// Open for reading.
    pub read: bool,
    /// Open for writing.
    pub write: bool,
    /// Force writes to append.
    pub append: bool,
    /// Create the file if it is missing.
    pub create: bool,
    /// Truncate an existing file to zero length.
    pub truncate: bool,
    /// Fail if the file already exists.
    pub exclusive: bool,
}

impl OpenFlags {
    /// The bit set that encodes these flags for the protocol client.
    pub open spec fn spec_bits(self) -> int {
        (if self.read { FXF_READ } else { 0 }) + (if self.write { FXF_WRITE } else { 0 })
            + (if self.append { FXF_APPEND } else { 0 })
            + (if self.create { FXF_CREATE } else { 0 })
            + (if self.truncate { FXF_TRUNCATE } else { 0 })
            + (if self.exclusive { FXF_EXCLUSIVE } else { 0 })
    }

    /// Encodes the flags as the protocol's open bit set.
    pub fn bits(&self) -> (encoded: u64)
        ensures
            encoded == self.spec_bits(),
    {
        (if self.read { FXF_READ } else { 0 }) + (if self.write { FXF_WRITE } else { 0 })
            + (if self.append { FXF_APPEND } else { 0 })
            + (if self.create { FXF_CREATE } else { 0 })
            + (if self.truncate { FXF_TRUNCATE } else { 0 })
            + (if self.exclusive { FXF_EXCLUSIVE } else { 0 })
    }

    /// Flags for a plain read-only open.
    pub fn read_only() -> (flags: Self)
        ensures
            flags == (OpenFlags {
                read: true,
                write: false,
                append: false,
                create: false,
                truncate: false,
                exclusive: false,
            }),
    {
        OpenFlags {
            read: true,
            write: false,
            append: false,
            create: false,
            truncate: false,
            exclusive: false,
        }
    }

    /// Flags for creating a file write-only with truncation: write plus
    /// truncate, which the protocol reads as "create if missing, empty if
    /// present".
    pub fn write_truncate() -> (flags: Self)
        ensures
            flags == (OpenFlags {
                read: false,
                write: true,
                append: false,
                create: false,
                truncate: true,
                exclusive: false,
            }),
    {
        OpenFlags {
            read: false,
            write: true,
            append: false,
            create: false,
            truncate: true,
            exclusive: false,
        }
    }
}

/// Bit asking the server to replace an existing destination on rename.
pub const RENAME_OVERWRITE: u64 = 0x1;

/// Bit asking for an atomic rename where the server offers one.
pub const RENAME_ATOMIC: u64 = 0x2;

/// Bit asking the server to use its native rename semantics.
pub const RENAME_NATIVE: u64 = 0x4;

/// How a rename is to behave when the destination exists and which server
/// semantics to request. Without `overwrite`, a rename onto an existing
/// destination is rejected with the protocol's "already exists" error.
#[derive(Clone, Copy, Debug, PartialEq, Eq, Structural)]
pub struct RenameFlags {
    /// Replace the destination if it already exists.
    pub overwrite: bool,
    /// Request an atomic rename if available.
    pub atomic: bool,
    /// Request the server's native rename semantics.
    pub native: bool,
}

impl RenameFlags {
    /// The bit set that encodes these flags for the protocol client.
    pub open spec fn spec_bits(self) -> int {
        (if self.overwrite { RENAME_OVERWRITE } else { 0 })
            + (if self.atomic { RENAME_ATOMIC } else { 0 })
            + (if self.native { RENAME_NATIVE } else { 0 })
    }

    /// Encodes the flags as the protocol's rename bit set.
    pub fn bits(&self) -> (encoded: u64)
        ensures
            encoded == self.spec_bits(),
    {
        (if self.overwrite { RENAME_OVERWRITE } else { 0 })
            + (if self.atomic { RENAME_ATOMIC } else { 0 })
            + (if self.native { RENAME_NATIVE } else { 0 })
    }
}

/// Whether an open call addresses a file or a directory cursor.
#[derive(Clone, Copy, Debug, PartialEq, Eq, Structural)]
pub enum OpenType {
    /// Open a regular file.
    File,
    /// Open a directory for reading its entries.
    Dir,
}

} // verus!
