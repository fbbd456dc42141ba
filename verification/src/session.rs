//! Session-level operations: one-to-one forwarding of each filesystem
//! request to the blocking protocol client, inside a write-readiness
//! window.
//!
//! Every session operation issues a request and then blocks awaiting the
//! protocol reply over the same multiplexed channel, so the layer
//! classifies them all uniformly as write-readiness-gated. Each operation
//! performs exactly one blocking call per attempt, retried only through
//! the readiness machinery, and surfaces the client's reply — a handle,
//! an attributes record, a listing, a path, or an error — verbatim.

use vstd::prelude::*;

use crate::error::FX_FILE_ALREADY_EXISTS;
use crate::error::SftpError;
use crate::flags::OpenFlags;
use crate::flags::OpenType;
use crate::suspend::Direction;
use crate::suspend::Progress;
use crate::suspend::RetryState;
use crate::suspend::lemma_retry_until_decisive;
use crate::suspend::spec_run;
use crate::suspend::spec_would_block;

verus! {

/// Mask of the file-kind bits inside a permissions word.
pub const S_IFMT: u32 = 0o170000;

/// File-kind bits of a directory.
pub const S_IFDIR: u32 = 0o040000;

/// File-kind bits of a regular file.
pub const S_IFREG: u32 = 0o100000;

/// File-kind bits of a symbolic link.
pub const S_IFLNK: u32 = 0o120000;

/// A snapshot of remote filesystem metadata, as stat-family calls return
/// it and set-stat accepts it. Every field is sparse: the server fills in
/// what it knows. The record is copied by value into and out of calls and
/// owned by no adapter.
#[derive(Clone, Copy, Debug, PartialEq, Eq)]
pub struct FileStat {
    /// File size in bytes.
    pub size: Option<u64>,
    /// Owning user id.
    pub uid: Option<u32>,
    /// Owning group id.
    pub gid: Option<u32>,
    /// Permissions word, including the file-kind bits.
    pub perm: Option<u32>,
    /// Last access time, in seconds.
    pub atime: Option<u64>,
    /// Last modification time, in seconds.
    pub mtime: Option<u64>,
}

impl FileStat {
    /// The file-kind bits of the record: the masked permissions word, or
    /// zero where the server sent none.
    pub open spec fn spec_kind_bits(self) -> u32 {
        match self.perm {
            Option::Some(perm) => perm & S_IFMT,
            Option::None => 0u32,
        }
    }

    /// Whether the record describes a directory.
    pub open spec fn spec_is_dir(self) -> bool {
        self.spec_kind_bits() == S_IFDIR
    }

    /// Whether the record describes a regular file.
    pub open spec fn spec_is_file(self) -> bool {
        self.spec_kind_bits() == S_IFREG
    }

    /// Whether the record describes a symbolic link.
    pub open spec fn spec_is_symlink(self) -> bool {
        self.spec_kind_bits() == S_IFLNK
    }

    /// An entirely unknown record: every field unfilled.
    pub fn unknown() -> (stat: Self)
        ensures
            stat == (FileStat {
                size: None,
                uid: None,
                gid: None,
                perm: None,
                atime: None,
                mtime: None,
            }),
    {
        FileStat { size: None, uid: None, gid: None, perm: None, atime: None, mtime: None }
    }

    /// Reads the file-kind bits out of the permissions word.
    pub fn kind_bits(&self) -> (bits: u32)
        ensures
            bits == self.spec_kind_bits(),
    {
        match self.perm {
            Option::Some(perm) => perm & S_IFMT,
            Option::None => 0u32,
        }
    }

    /// Whether the record describes a directory.
    pub fn is_dir(&self) -> (dir: bool)
        ensures
            dir == self.spec_is_dir(),
    {
        self.kind_bits() == S_IFDIR
    }

    /// Whether the record describes a regular file.
    pub fn is_file(&self) -> (file: bool)
        ensures
            file == self.spec_is_file(),
    {
        self.kind_bits() == S_IFREG
    }

    /// Whether the record describes a symbolic link.
    pub fn is_symlink(&self) -> (link: bool)
        ensures
            link == self.spec_is_symlink(),
    {
        self.kind_bits() == S_IFLNK
    }
}

/// One entry of a directory listing: the entry's name and its attributes
/// record, materialized eagerly when the listing call completes.
#[derive(Clone, Debug, PartialEq, Eq)]
pub struct DirEntry {
    /// The entry's name, an opaque byte sequence.
    pub name: Vec<u8>,
    /// The entry's metadata snapshot.
    pub stat: FileStat,
}

/// The session-level operations the adapter forwards, one blocking call
/// each.
#[derive(Clone, Copy, Debug, PartialEq, Eq, Structural)]
pub enum SessionOp {
    /// Open with explicit flags, creation mode and open type.
    OpenMode,
    /// Open read-only with default mode.
    Open,
    /// Create a file for writing, truncating an existing one.
    Create,
    /// Open a directory cursor.
    Opendir,
    /// Materialize one directory's entries.
    Readdir,
    /// Make a directory.
    Mkdir,
    /// Remove a directory.
    Rmdir,
    /// Fetch metadata, following symbolic links.
    Stat,
    /// Fetch metadata without following symbolic links.
    Lstat,
    /// Apply a metadata record to a path.
    Setstat,
    /// Create a symbolic link.
    Symlink,
    /// Read a symbolic link's target.
    Readlink,
    /// Canonicalize a path server-side.
    Realpath,
    /// Rename an entry, optionally overwriting the destination.
    Rename,
    /// Remove a file.
    Unlink,
}

impl SessionOp {
    /// Classifies the operation's readiness direction. Every session
    /// operation sends a request and awaits the protocol reply over the
    /// one multiplexed channel, so all of them are gated uniformly on
    /// write readiness of the transport.
    pub fn direction(&self) -> (direction: Direction)
        ensures
            direction == Direction::Write,
    {
        Direction::Write
    }
}

/// The creation-mode word the default open helpers pass along.
pub const DEFAULT_OPEN_MODE: i32 = 0o644;

/// What an open-family call hands to the blocking client besides the
/// path: the open flags, the creation mode and the file-or-directory
/// discriminator.
#[derive(Clone, Copy, Debug, PartialEq, Eq, Structural)]
pub struct OpenRequest {
    /// How the file is to be opened.
    pub flags: OpenFlags,
    /// Creation mode for a file the open may create.
    pub mode: i32,
    /// Whether a file or a directory cursor is addressed.
    pub open_type: OpenType,
}

/// The request of the default open: read-only access to a file, with the
/// default creation mode.
pub fn open_request() -> (request: OpenRequest)
    ensures
        request.flags == (OpenFlags {
            read: true,
            write: false,
            append: false,
            create: false,
            truncate: false,
            exclusive: false,
        }),
        request.mode == DEFAULT_OPEN_MODE,
        request.open_type == OpenType::File,
{
    OpenRequest { flags: OpenFlags::read_only(), mode: DEFAULT_OPEN_MODE, open_type: OpenType::File }
}

/// The request of create: open a file write-only with truncation — which
/// the protocol reads as "create if missing, empty if present" — with the
/// default creation mode.
pub fn create_request() -> (request: OpenRequest)
    ensures
        request.flags == (OpenFlags {
            read: false,
            write: true,
            append: false,
            create: false,
            truncate: true,
            exclusive: false,
        }),
        request.mode == DEFAULT_OPEN_MODE,
        request.open_type == OpenType::File,
{
    OpenRequest {
        flags: OpenFlags::write_truncate(),
        mode: DEFAULT_OPEN_MODE,
        open_type: OpenType::File,
    }
}

/// The request of open-directory: read-only access to a directory
/// cursor, with no creation mode.
pub fn opendir_request() -> (request: OpenRequest)
    ensures
        request.flags == (OpenFlags {
            read: true,
            write: false,
            append: false,
            create: false,
            truncate: false,
            exclusive: false,
        }),
        request.mode == 0,
        request.open_type == OpenType::Dir,
{
    OpenRequest { flags: OpenFlags::read_only(), mode: 0, open_type: OpenType::Dir }
}

/// A directory listing is surfaced exactly as the protocol client
/// materialized it: once the listing call's attempts reach a successful
/// reply, the operation resolves to those entries, so the surfaced and
/// produced listings are equal — in particular equal as a multiset of
/// (name, attributes) pairs, which is all the listing contract promises
/// about order.
pub proof fn lemma_listing_verbatim(
    start: RetryState,
    outcomes: Seq<Result<Seq<(Seq<u8>, FileStat)>, SftpError>>,
    entries: Seq<(Seq<u8>, FileStat)>,
    transients: int,
)
    requires
        0 <= transients,
        outcomes.len() == transients + 1,
        forall|i: int| 0 <= i < transients ==> spec_would_block(#[trigger] outcomes[i]),
        outcomes[transients] == Result::<Seq<(Seq<u8>, FileStat)>, SftpError>::Ok(entries),
        start.suspensions + transients <= u64::MAX,
    ensures
        spec_run(Progress::Suspend(start), outcomes) == Progress::Done(
            RetryState { suspensions: (start.suspensions + transients) as u64 },
            Result::<Seq<(Seq<u8>, FileStat)>, SftpError>::Ok(entries),
        ),
        spec_run(Progress::Suspend(start), outcomes) matches Progress::Done(_, Result::Ok(listed))
            ==> listed.to_multiset() == entries.to_multiset(),
{
    lemma_retry_until_decisive(start, outcomes, transients);
}

/// A rename resolves exactly as the server decides, and a conflict is
/// surfaced recognizably: when the reply is the protocol's "already
/// exists" rejection — what a server answers a rename whose destination
/// is occupied and whose flags lack overwrite — the operation fails with
/// precisely that error, which [`SftpError::is_already_exists`]
/// recognizes; when the reply is success, the operation succeeds. The
/// layer neither masks the conflict nor retries it; that an overwriting
/// rename leaves the source's content at the destination is the server's
/// side of the contract.
pub proof fn lemma_rename_outcome_verbatim(start: RetryState, reply: Result<(), SftpError>)
    requires
        !spec_would_block(reply),
    ensures
        spec_run(Progress::Suspend(start), seq![reply]) == Progress::Done(start, reply),
        reply == Result::<(), SftpError>::Err(SftpError::Protocol(FX_FILE_ALREADY_EXISTS))
            ==> (spec_run(Progress::Suspend(start), seq![reply]) matches Progress::Done(
            _,
            Result::Err(failure),
        ) && failure.spec_is_already_exists()),
{
    lemma_retry_until_decisive(start, seq![reply], 0);
}

/// Stat is idempotent at this layer: the adapter holds no state that
/// could color a metadata reply, so any two stat invocations — whatever
/// their own retry histories — that receive identical protocol replies
/// surface bit-identical attributes records. Repeated stat on an
/// unmodified path therefore returns identical records exactly when the
/// server answers identically, which is its contract for an unmodified
/// path.
pub proof fn lemma_stat_idempotent(
    first: RetryState,
    second: RetryState,
    reply: Result<FileStat, SftpError>,
)
    requires
        !spec_would_block(reply),
    ensures
        spec_run(Progress::Suspend(first), seq![reply]) == Progress::Done(first, reply),
        spec_run(Progress::Suspend(second), seq![reply]) == Progress::Done(second, reply),
{
    lemma_retry_until_decisive(first, seq![reply], 0);
    lemma_retry_until_decisive(second, seq![reply], 0);
}

} // verus!
