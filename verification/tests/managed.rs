use safemesh_binding::envelope::{
    check_replay, corrupt_envelope, managed_envelope, read_envelope, ENVELOPE_HEADER_LEN,
    MAX_MANAGED_WRITERS,
};
use safemesh_binding::managed::{
    check_open_writer, code_name, decode_snapshot_hex, log_merge_plan, record_merge_plan,
    open_end, open_setup, reentry_error, ManagedCode, ManagedState, OpenEnd, OpenSetup,
};
use safemesh_binding::wire::Verdict;

const CORRUPT: &str = "invalid managed counter envelope or replay";

fn corrupt(bytes: &[u8], writer: u64) -> bool {
    match read_envelope(bytes, writer) {
        Ok(_) => false,
        Err(e) => e.code == ManagedCode::Corrupt && e.message == CORRUPT,
    }
}

#[test]
fn envelope_reads_back_as_written() {
    let bytes = managed_envelope(3, 1, 5, 9, b"log-bytes");
    assert_eq!(&bytes[..9], b"SMNODEGC\x01");
    assert_eq!(&bytes[9..17], &3u64.to_le_bytes());
    assert_eq!(&bytes[17..25], &1u64.to_le_bytes());
    assert_eq!(&bytes[25..33], &5u64.to_le_bytes());
    assert_eq!(&bytes[33..41], &9u64.to_le_bytes());
    assert_eq!(&bytes[ENVELOPE_HEADER_LEN..], b"log-bytes");
    let header = read_envelope(&bytes, 1).ok().unwrap();
    assert_eq!((header.count, header.author, header.cursor, header.revision), (3, 1, 5, 9));
}

#[test]
fn envelope_headers_a_handle_cannot_restore_are_corrupt() {
    assert!(corrupt(&managed_envelope(0, 0, 0, 1, b""), 0));
    assert!(corrupt(&managed_envelope(MAX_MANAGED_WRITERS + 1, 0, 0, 1, b""), 0));
    assert!(!corrupt(&managed_envelope(MAX_MANAGED_WRITERS, 0, 0, 1, b""), 0));
    assert!(corrupt(&managed_envelope(3, 1, 0, 1, b""), 2));
    assert!(corrupt(&managed_envelope(3, 3, 0, 1, b""), 3));
    assert!(corrupt(&managed_envelope(3, 1, 0, 0, b""), 1));
    let whole = managed_envelope(3, 1, 0, 1, b"");
    assert!(corrupt(&whole[..40], 1));
    let mut version = whole.clone();
    version[8] = 2;
    assert!(corrupt(&version, 1));
    let mut magic = whole.clone();
    magic[2] = b'X';
    assert!(corrupt(&magic, 1));
    assert_eq!(corrupt_envelope().message, CORRUPT);
}

#[test]
fn replay_accepts_only_a_faithful_envelope() {
    let bytes = managed_envelope(2, 0, 1, 4, b"records");
    let header = read_envelope(&bytes, 0).ok().unwrap();
    let accepted = vec![Verdict::Accepted, Verdict::Accepted];
    assert!(check_replay(&accepted, 1, &header, &bytes.clone(), &bytes).is_ok());
    assert!(check_replay(&vec![], 1, &header, &bytes.clone(), &bytes).is_ok());
    let duplicate = vec![Verdict::Accepted, Verdict::Duplicate];
    assert!(check_replay(&duplicate, 1, &header, &bytes.clone(), &bytes).is_err());
    assert!(check_replay(&accepted, 2, &header, &bytes.clone(), &bytes).is_err());
    let mut trailing = bytes.clone();
    trailing.push(0);
    let error = check_replay(&accepted, 1, &header, &bytes.clone(), &trailing).err().unwrap();
    assert_eq!((error.code == ManagedCode::Corrupt, error.message.as_str()), (true, CORRUPT));
    let mut altered = bytes.clone();
    altered[45] ^= 1;
    assert!(check_replay(&accepted, 1, &header, &altered, &bytes).is_err());
}

#[test]
fn handle_admits_reads_and_writes_by_state() {
    let open = ManagedState::opened(1);
    assert!(open.check_access(true).is_ok());
    assert!(open.check_access(false).is_ok());
    let disabled = ManagedState { revision: 1, closed: false, disabled: true };
    assert!(disabled.check_access(false).is_ok());
    let error = disabled.check_access(true).err().unwrap();
    assert!(error.code == ManagedCode::Disabled);
    assert_eq!(error.message, "close and restart after failed commit");
    let closed = ManagedState { revision: 1, closed: true, disabled: true };
    for write in [false, true] {
        let error = closed.check_access(write).err().unwrap();
        assert!(error.code == ManagedCode::Closed);
        assert_eq!(error.message, "managed handle is closed");
    }
}

#[test]
fn commits_advance_one_revision_and_a_failed_commit_disables() {
    let mut state = ManagedState::opened(1);
    assert_eq!(state.next_revision().ok(), Some(2));
    state.settle_commit(true);
    assert!(state == ManagedState { revision: 2, closed: false, disabled: false });
    state.settle_commit(false);
    assert!(state == ManagedState { revision: 2, closed: false, disabled: true });
    assert!(state.check_access(true).is_err());
    let exhausted = ManagedState::opened(u64::MAX);
    let error = exhausted.next_revision().err().unwrap();
    assert!(error.code == ManagedCode::Commit);
    assert_eq!(error.message, "revision exhausted");
}

#[test]
fn close_withdraws_write_authority_even_when_it_fails() {
    let mut state = ManagedState::opened(3);
    assert!(state.begin_close());
    assert!(state.disabled && !state.closed);
    assert!(state.check_access(true).is_err());
    assert!(state.check_access(false).is_ok());
    state.finish_close();
    assert!(state.closed);
    assert!(!state.begin_close());
    assert!(state == ManagedState { revision: 3, closed: true, disabled: true });
}

#[test]
fn merges_publish_by_verdict() {
    assert_eq!(record_merge_plan(Verdict::Accepted).ok(), Some(true));
    assert_eq!(record_merge_plan(Verdict::Duplicate).ok(), Some(false));
    let error = record_merge_plan(Verdict::Collision).err().unwrap();
    assert!(error.code == ManagedCode::Collision);
    assert_eq!(error.message, "peer record collision");
    assert_eq!(log_merge_plan(&vec![Verdict::Duplicate, Verdict::Accepted]).ok(), Some(true));
    assert_eq!(log_merge_plan(&vec![Verdict::Duplicate]).ok(), Some(false));
    assert_eq!(log_merge_plan(&vec![]).ok(), Some(false));
    let error = log_merge_plan(&vec![Verdict::Accepted, Verdict::Collision]).err().unwrap();
    assert!(error.code == ManagedCode::Collision);
    assert_eq!(error.message, "peer batch collision");
}

#[test]
fn fresh_writer_must_own_a_coordinate() {
    assert!(check_open_writer(2, Some(3)).is_ok());
    assert!(check_open_writer(u64::MAX, None).is_ok());
    let error = check_open_writer(3, Some(3)).err().unwrap();
    assert!(error.code == ManagedCode::Corrupt);
    assert_eq!(error.message, "writer outside committed count");
}

#[test]
fn snapshot_hex_decodes_whole_pairs() {
    assert_eq!(decode_snapshot_hex(b"0aff10").ok(), Some(vec![0x0a, 0xff, 0x10]));
    assert_eq!(decode_snapshot_hex(b"ABcd").ok(), Some(vec![0xab, 0xcd]));
    assert_eq!(decode_snapshot_hex(b"+f").ok(), Some(vec![0x0f]));
    assert_eq!(decode_snapshot_hex(b"abc").ok(), Some(vec![0xab]));
    assert_eq!(decode_snapshot_hex(b"").ok(), Some(vec![]));
    let whole_character = "\u{e9}".as_bytes();
    let stops_before_split = [b'z', b'z', 0xc3, b'a'];
    for bad in [&b"zz"[..], &b"0g"[..], &b"-1"[..], &b"f+"[..], &b"++"[..], whole_character, &stops_before_split[..]] {
        let error = decode_snapshot_hex(bad).err().unwrap();
        assert!(error.code == ManagedCode::Corrupt);
        assert_eq!(error.message, "invalid snapshot bytes");
    }
}

#[test]
fn store_error_codes_read_as_javascript_names() {
    let cases = [
        (ManagedCode::Missing, "MISSING"),
        (ManagedCode::Corrupt, "CORRUPT"),
        (ManagedCode::Stale, "STALE"),
        (ManagedCode::Exists, "EXISTS"),
        (ManagedCode::Locked, "LOCKED"),
        (ManagedCode::Commit, "COMMIT"),
        (ManagedCode::Disabled, "DISABLED"),
        (ManagedCode::Reentry, "REENTRY"),
        (ManagedCode::Closed, "CLOSED"),
        (ManagedCode::Collision, "COLLISION"),
    ];
    for (code, name) in cases {
        assert_eq!(code_name(code), name);
    }
}

#[test]
fn callback_reentry_is_refused_by_name() {
    let error = reentry_error();
    assert!(error.code == ManagedCode::Reentry);
    assert_eq!(error.message, "Store callback reentry");
    assert_eq!(code_name(error.code), "REENTRY");
}

#[test]
fn fresh_open_commits_revision_one_and_a_failed_setup_closes_the_lease() {
    assert!(matches!(open_setup(Some(3)), OpenSetup::CommitFresh { expected: 0, revision: 1 }));
    assert!(matches!(open_setup(None), OpenSetup::RestoreCommitted));
    match open_end(Some(7)) {
        OpenEnd::Opened(state) => {
            assert!(state == ManagedState { revision: 7, closed: false, disabled: false })
        }
        OpenEnd::CloseLease => panic!("a committed setup opens the handle"),
    }
    assert!(matches!(open_end(None), OpenEnd::CloseLease));
}
