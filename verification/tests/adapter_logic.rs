//! Scenario tests driving the adaptation layer's decision logic the way
//! the asynchronous shell does, against small simulated collaborators.

use async_ssh2_lite::error::{SftpError, ERR_EAGAIN, FX_FILE_ALREADY_EXISTS, FX_NO_SUCH_FILE};
use async_ssh2_lite::flags::{OpenFlags, OpenType, RenameFlags};
use async_ssh2_lite::session::{
    create_request, open_request, opendir_request, DirEntry, FileStat, SessionOp,
};
use async_ssh2_lite::stream::{close_result, HandleOp, ReadAssembly, WriteTransfer};
use async_ssh2_lite::suspend::{poll_once, Direction, PollFlow, Polled, Progress, RetryState};

fn would_block<T>() -> Result<T, SftpError> {
    Err(SftpError::Session(ERR_EAGAIN))
}

fn plain_stat(perm: u32, size: u64) -> FileStat {
    FileStat {
        size: Some(size),
        uid: Some(1000),
        gid: Some(1000),
        perm: Some(perm),
        atime: Some(1_700_000_000),
        mtime: Some(1_700_000_001),
    }
}

#[test]
fn open_flag_encoding() {
    let read = OpenFlags::read_only();
    assert_eq!(read.bits(), 0x1);
    let create = OpenFlags::write_truncate();
    assert_eq!(create.bits(), 0x2 | 0x10);
    let all = OpenFlags {
        read: true,
        write: true,
        append: true,
        create: true,
        truncate: true,
        exclusive: true,
    };
    assert_eq!(all.bits(), 0x3f);
    let none = OpenFlags {
        read: false,
        write: false,
        append: false,
        create: false,
        truncate: false,
        exclusive: false,
    };
    assert_eq!(none.bits(), 0);
}

#[test]
fn rename_flag_encoding() {
    let overwrite = RenameFlags { overwrite: true, atomic: false, native: false };
    assert_eq!(overwrite.bits(), 0x1);
    let all = RenameFlags { overwrite: true, atomic: true, native: true };
    assert_eq!(all.bits(), 0x7);
    let none = RenameFlags { overwrite: false, atomic: false, native: false };
    assert_eq!(none.bits(), 0);
}

#[test]
fn default_open_requests() {
    let open = open_request();
    assert_eq!(open.flags, OpenFlags::read_only());
    assert_eq!(open.mode, 0o644);
    assert_eq!(open.open_type, OpenType::File);

    let create = create_request();
    assert_eq!(create.flags, OpenFlags::write_truncate());
    assert_eq!(create.mode, 0o644);
    assert_eq!(create.open_type, OpenType::File);

    let opendir = opendir_request();
    assert_eq!(opendir.flags, OpenFlags::read_only());
    assert_eq!(opendir.mode, 0);
    assert_eq!(opendir.open_type, OpenType::Dir);
}

#[test]
fn error_classification() {
    assert!(SftpError::Session(ERR_EAGAIN).is_would_block());
    assert!(!SftpError::Session(-1).is_would_block());
    assert!(!SftpError::Protocol(ERR_EAGAIN).is_would_block());
    assert!(SftpError::Protocol(FX_FILE_ALREADY_EXISTS).is_already_exists());
    assert!(!SftpError::Session(FX_FILE_ALREADY_EXISTS).is_already_exists());
    assert!(!SftpError::Protocol(FX_NO_SUCH_FILE).is_already_exists());
}

#[test]
fn directions() {
    assert_eq!(HandleOp::Read.direction(), Direction::Read);
    assert_eq!(HandleOp::Write.direction(), Direction::Write);
    assert_eq!(HandleOp::Flush.direction(), Direction::Write);
    assert_eq!(HandleOp::Close.direction(), Direction::Write);
    let session_ops = [
        SessionOp::OpenMode,
        SessionOp::Open,
        SessionOp::Create,
        SessionOp::Opendir,
        SessionOp::Readdir,
        SessionOp::Mkdir,
        SessionOp::Rmdir,
        SessionOp::Stat,
        SessionOp::Lstat,
        SessionOp::Setstat,
        SessionOp::Symlink,
        SessionOp::Readlink,
        SessionOp::Realpath,
        SessionOp::Rename,
        SessionOp::Unlink,
    ];
    for op in session_ops.iter() {
        assert_eq!(op.direction(), Direction::Write);
    }
}

#[test]
fn poll_once_surfaces_exactly_once() {
    match poll_once(Polled::Ready(Ok(17u64))) {
        PollFlow::Complete(outcome) => assert_eq!(outcome, Ok(17)),
        PollFlow::Suspend => panic!("a resolved future must complete the operation"),
    }
    match poll_once(Polled::Ready(Err::<u64, _>(SftpError::Protocol(FX_NO_SUCH_FILE)))) {
        PollFlow::Complete(outcome) => {
            assert_eq!(outcome, Err(SftpError::Protocol(FX_NO_SUCH_FILE)))
        }
        PollFlow::Suspend => panic!("an error must be propagated, not swallowed"),
    }
    match poll_once(Polled::<u64>::Pending) {
        PollFlow::Complete(_) => panic!("an unresolved future must suspend the task"),
        PollFlow::Suspend => {}
    }
}

#[test]
fn would_block_three_times_then_succeed() {
    // The blocking call reports "would block" three times before its
    // decisive outcome; the task must suspend once per report and still
    // see the right value.
    let mut state = RetryState::start();
    let mut suspensions = 0u64;
    for _ in 0..3 {
        match state.on_attempt(would_block::<u64>()) {
            Progress::Suspend(next) => {
                suspensions += 1;
                assert_eq!(next.suspensions, suspensions);
                state = next;
            }
            Progress::Done(_, _) => panic!("a would-block report must suspend, not complete"),
        }
    }
    match state.on_attempt(Ok(99u64)) {
        Progress::Done(end, outcome) => {
            assert_eq!(end.suspensions, 3);
            assert_eq!(outcome, Ok(99));
        }
        Progress::Suspend(_) => panic!("a decisive outcome must complete the operation"),
    }
}

#[test]
fn genuine_error_is_surfaced_verbatim() {
    let state = RetryState::start();
    match state.on_attempt::<u64>(Err(SftpError::Protocol(FX_NO_SUCH_FILE))) {
        Progress::Done(end, outcome) => {
            assert_eq!(end.suspensions, 0);
            assert_eq!(outcome, Err(SftpError::Protocol(FX_NO_SUCH_FILE)));
        }
        Progress::Suspend(_) => panic!("a protocol error is not a reason to retry"),
    }
}

#[test]
fn partial_writes_lose_and_duplicate_nothing() {
    // A sink that accepts at most four bytes per attempt: the caller
    // retries with the remainder until everything is accepted.
    let content = b"the quick brown fox jumps over the lazy dog".to_vec();
    let mut transfer = WriteTransfer::new(content.clone());
    let mut store: Vec<u8> = Vec::new();
    let mut attempts: usize = 0;
    while !transfer.is_done() {
        let pending = transfer.pending();
        assert_eq!(pending.len(), transfer.remaining());
        let accepted = pending.len().min(4);
        store.extend_from_slice(&pending[..accepted]);
        transfer.accept(accepted);
        attempts += 1;
        assert!(attempts <= content.len() + 1, "the retry loop must make progress");
    }
    assert_eq!(store, content);
}

#[test]
fn read_assembles_chunks_in_order() {
    let mut assembly = ReadAssembly::new();
    assembly.push_chunk(&b"hel".to_vec());
    assembly.push_chunk(&b"lo ".to_vec());
    assembly.push_chunk(&b"stream".to_vec());
    assert!(!assembly.is_at_end());
    assembly.push_chunk(&Vec::new());
    assert!(assembly.is_at_end());
    assert_eq!(assembly.into_bytes(), b"hello stream".to_vec());
}

#[test]
fn write_then_read_round_trip() {
    // Write with partial acceptances into a store, then read the store
    // back in small chunks: the assembled bytes must equal the written
    // content. Close is a no-op, so the writing side is driven to
    // completion explicitly before anything is read back.
    let content = b"round trip content with some length to split".to_vec();
    let mut transfer = WriteTransfer::new(content.clone());
    let mut store: Vec<u8> = Vec::new();
    let splits = [1usize, 7, 3, 11, 2];
    let mut turn = 0usize;
    while !transfer.is_done() {
        let pending = transfer.pending();
        let accepted = pending.len().min(splits[turn % splits.len()].max(1));
        store.extend_from_slice(&pending[..accepted]);
        transfer.accept(accepted);
        turn += 1;
    }
    assert_eq!(close_result(), Ok(()));

    let mut assembly = ReadAssembly::new();
    let mut offset = 0usize;
    while offset < store.len() {
        let end = (offset + 5).min(store.len());
        assembly.push_chunk(&store[offset..end].to_vec());
        offset = end;
    }
    assembly.push_chunk(&Vec::new());
    assert_eq!(assembly.into_bytes(), content);
}

#[test]
fn listing_is_forwarded_as_a_set() {
    // The simulated client materializes a directory's entries; the layer
    // must surface exactly that set of (name, attributes) pairs, with no
    // promise about order.
    let produced = vec![
        DirEntry { name: b"notes.txt".to_vec(), stat: plain_stat(0o100644, 120) },
        DirEntry { name: b"sub".to_vec(), stat: plain_stat(0o040755, 4096) },
        DirEntry { name: b"link".to_vec(), stat: plain_stat(0o120777, 8) },
    ];
    let state = RetryState::start();
    match state.on_attempt(Ok(produced.clone())) {
        Progress::Done(_, Ok(listed)) => {
            let mut left: Vec<_> =
                listed.iter().map(|e| (e.name.clone(), e.stat)).collect();
            let mut right: Vec<_> =
                produced.iter().map(|e| (e.name.clone(), e.stat)).collect();
            left.sort_by(|a, b| a.0.cmp(&b.0));
            right.sort_by(|a, b| a.0.cmp(&b.0));
            assert_eq!(left.len(), 3);
            assert_eq!(
                left.iter().map(|(n, _)| n.clone()).collect::<Vec<_>>(),
                right.iter().map(|(n, _)| n.clone()).collect::<Vec<_>>()
            );
            for ((ln, ls), (rn, rs)) in left.iter().zip(right.iter()) {
                assert_eq!(ln, rn);
                assert_eq!(ls, rs);
            }
        }
        _ => panic!("a successful listing must be surfaced"),
    }
}

#[test]
fn repeated_stat_is_bit_identical() {
    // An unmodified path: the simulated server answers both stat calls
    // with the same record; the layer must surface bit-identical records.
    let record = plain_stat(0o100600, 54321);
    let first = match RetryState::start().on_attempt(Ok(record)) {
        Progress::Done(_, Ok(stat)) => stat,
        _ => panic!("stat must complete"),
    };
    let second = match RetryState::start().on_attempt(Ok(record)) {
        Progress::Done(_, Ok(stat)) => stat,
        _ => panic!("stat must complete"),
    };
    assert_eq!(first, second);
    assert_eq!(first, record);
}

#[test]
fn file_kind_bits() {
    assert!(plain_stat(0o040755, 0).is_dir());
    assert!(!plain_stat(0o040755, 0).is_file());
    assert!(plain_stat(0o100644, 0).is_file());
    assert!(plain_stat(0o120777, 0).is_symlink());
    let unknown = FileStat { size: None, uid: None, gid: None, perm: None, atime: None, mtime: None };
    assert!(!unknown.is_dir());
    assert!(!unknown.is_file());
    assert!(!unknown.is_symlink());
    assert_eq!(FileStat::unknown(), unknown);
}

#[test]
fn close_is_the_documented_no_op() {
    assert_eq!(close_result(), Ok(()));
}
