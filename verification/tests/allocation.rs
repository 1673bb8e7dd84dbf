use safemesh_binding::allocation::{
    allocated_add_sequence, check_caller_token, check_incoming, check_incoming_batch,
    check_owned_record, check_remove_observed, check_restored_identity, checked_next,
    checked_write_next, export_identity, refusal_message, take_allocated_token, OwnedRecord,
    Refusal,
};
use safemesh_binding::identity::{decode_identity, encode_identity, IdentityHeader, IDENTITY_HEADER_LEN};
use safemesh_binding::registry::{import_identity, AuthorRegistry};
use safemesh_binding::wasm::allocation_error;
use safemesh_binding::wire::{CoreCause, WireFault};

/// The token the core's allocation rule gives `(writers, author, sequence)`.
fn token(writers: u64, author: u64, sequence: u64) -> Option<u64> {
    if writers == 0 || author >= writers || sequence == 0 {
        return None;
    }
    sequence.checked_mul(writers)?.checked_add(author)
}

fn add(writers: u64, author: u64, sequence: u64) -> OwnedRecord {
    let t = token(writers, author, sequence);
    OwnedRecord { replica: author, sequence, add_token: t, allocated_token: t, core_refusal: None }
}

fn remove(writers: u64, author: u64, sequence: u64) -> OwnedRecord {
    OwnedRecord {
        replica: author,
        sequence,
        add_token: None,
        allocated_token: token(writers, author, sequence),
        core_refusal: None,
    }
}

fn message(r: Result<u64, Refusal>) -> String {
    refusal_message(&r.err().unwrap())
}

#[test]
fn empty_history_writes_sequence_one() {
    assert_eq!(checked_next(true, 2, 0, &vec![], true).ok(), Some(1));
    assert_eq!(checked_write_next(true, 2, 0, &vec![], true).ok(), Some(1));
}

#[test]
fn complete_history_gives_the_next_sequence() {
    let records = vec![add(2, 0, 1), add(2, 1, 1), remove(2, 0, 2), add(2, 0, 3), add(2, 1, 2)];
    assert_eq!(checked_next(true, 2, 0, &records, true).ok(), Some(4));
    assert_eq!(checked_next(true, 2, 1, &records, true).ok(), Some(3));
    // Record order within the log does not matter, only completeness.
    let shuffled = vec![add(2, 0, 3), add(2, 0, 1), remove(2, 0, 2)];
    assert_eq!(checked_next(true, 2, 0, &shuffled, true).ok(), Some(4));
}

#[test]
fn allocated_history_refuses_gaps_zero_and_max_sequence_locally() {
    let gap = vec![remove(1, 0, 2)];
    assert_eq!(message(checked_next(true, 1, 0, &gap, true)), "allocation/history consistency: incomplete local history");
    let top = vec![remove(1, 0, u64::MAX)];
    assert_eq!(message(checked_next(true, 1, 0, &top, true)), "allocation/history consistency: incomplete local history");
    let zero = vec![remove(1, 0, 0)];
    assert_eq!(message(checked_next(true, 1, 0, &zero, true)), "allocation/history consistency: invalid record author or sequence");
    assert_eq!(token(1, 0, u64::MAX), Some(u64::MAX));
    assert_eq!(token(2, 0, u64::MAX), None);
    assert_eq!(token(0, 0, 1), None);
    assert_eq!(token(2, 2, 1), None);
    assert_eq!(token(2, 0, 0), None);
}

#[test]
fn outsider_author_and_token_mismatch_are_refused() {
    let outsider = vec![add(2, 0, 1), remove(3, 2, 1)];
    assert_eq!(message(checked_next(true, 2, 0, &outsider, true)), "allocation/history consistency: invalid record author or sequence");
    let mut forged = add(2, 1, 1);
    forged.add_token = Some(99);
    assert_eq!(message(checked_next(true, 2, 0, &vec![forged], true)), "allocation/history consistency: token mismatch");
    let mut unallocatable = add(2, 1, 1);
    unallocatable.allocated_token = None;
    let refusal = check_owned_record(2, &unallocatable, true).err().unwrap();
    assert!(matches!(refusal, Refusal::TokenMismatch));
    // A remove carries no token to check.
    assert!(check_owned_record(2, &remove(2, 1, 1), true).is_ok());
}

#[test]
fn invalid_writer_configuration_is_an_argument_error() {
    let refusal = checked_next(false, 0, 0, &vec![], true).err().unwrap();
    assert!(matches!(refusal, Refusal::InvalidWriterConfiguration));
    let error = allocation_error(&refusal);
    assert_eq!((error.code, error.message.as_str()), (2, "invalid writer configuration"));
    let error = allocation_error(&Refusal::TokenMismatch);
    assert_eq!((error.code, error.message.as_str()), (1, "allocation/history consistency: token mismatch"));
}

#[test]
fn core_record_hook_refusal_comes_first_and_keeps_core_text() {
    let mut record = remove(2, 5, 0);
    record.core_refusal = Some(CoreCause { fault: WireFault::Other, text: "core hook refused".to_string() });
    let with_hook = check_owned_record(2, &record, true).err().unwrap();
    assert_eq!(refusal_message(&with_hook), "core hook refused");
    let without_hook = check_owned_record(2, &record, false).err().unwrap();
    assert!(matches!(without_hook, Refusal::InvalidAuthorOrSequence));
}

#[test]
fn write_advances_the_cursor_by_one() {
    let mut records = vec![add(3, 2, 1)];
    let first = checked_write_next(true, 3, 2, &records, true).ok().unwrap();
    assert_eq!(first, 2);
    records.push(add(3, 2, first));
    assert_eq!(checked_next(true, 3, 2, &records, true).ok(), Some(first + 1));
}

#[test]
fn incoming_records_may_not_claim_the_local_author() {
    let known = vec![(0, 1), (1, 1)];
    let claim = check_incoming(Some(2), 0, &add(2, 0, 2), &known, true).err().unwrap();
    assert_eq!(refusal_message(&claim), "incoming record claims the local author");
    assert!(check_incoming(Some(2), 0, &add(2, 0, 1), &known, true).is_ok());
    assert!(check_incoming(Some(2), 0, &add(2, 1, 2), &known, true).is_ok());
    assert!(check_incoming(None, 0, &add(2, 0, 9), &vec![], true).is_ok());
    let outsider = check_incoming(Some(2), 0, &add(3, 2, 1), &known, true).err().unwrap();
    assert!(matches!(outsider, Refusal::InvalidAuthorOrSequence));
}

#[test]
fn allocated_writer_refuses_misuse_with_named_texts() {
    let caller = check_caller_token(Some(2)).err().unwrap();
    assert_eq!(refusal_message(&caller), "allocated replica rejects caller-supplied tokens; use appendAllocatedAdd");
    assert!(check_caller_token(None).is_ok());
    let plain = allocated_add_sequence(None, true, 0, &vec![], true).err().unwrap();
    assert_eq!(refusal_message(&plain), "replica has no allocated identity");
    assert_eq!(allocated_add_sequence(Some(4), true, 3, &vec![add(4, 3, 1)], true).ok(), Some((4, 2)));
    assert!(check_remove_observed(None, false, 0, &vec![], true).is_ok());
    assert!(check_remove_observed(Some(4), true, 3, &vec![add(4, 3, 1)], true).is_ok());
    let gap = check_remove_observed(Some(4), true, 3, &vec![add(4, 3, 2)], true).err().unwrap();
    assert!(matches!(gap, Refusal::IncompleteHistory));
    let exported = export_identity(None, true, 0, &vec![], true, b"log").err().unwrap();
    assert_eq!(refusal_message(&exported), "replica has no allocated identity");
}

#[test]
fn refusal_texts_cover_every_refusal() {
    let cases = [
        (Refusal::LiveWriterExists, "author already has a live allocated writer"),
        (Refusal::SequenceExhausted, "allocation sequence exhausted"),
        (Refusal::TokenAllocationExhausted, "token allocation exhausted"),
        (Refusal::InvalidIdentityStorage, "allocation/history consistency: invalid identity storage"),
        (Refusal::NextSequenceMismatch, "allocation/history consistency: next sequence mismatch"),
        (Refusal::IncompleteHistory, "allocation/history consistency: incomplete local history"),
    ];
    for (refusal, text) in cases {
        assert_eq!(refusal_message(&refusal), text);
        assert_eq!(allocation_error(&refusal).code, 1);
    }
}

#[test]
fn exported_identity_restores_with_the_same_fields() {
    let records = vec![add(2, 1, 1), add(2, 0, 1), remove(2, 1, 2)];
    let bytes = export_identity(Some(2), true, 1, &records, true, b"core-log").ok().unwrap();
    assert_eq!(&bytes[..5], b"SMOI\x01");
    assert_eq!(&bytes[5..13], &2u64.to_le_bytes());
    assert_eq!(&bytes[13..21], &1u64.to_le_bytes());
    assert_eq!(&bytes[21..29], &3u64.to_le_bytes());
    assert_eq!(&bytes[IDENTITY_HEADER_LEN..], b"core-log");
    let header = decode_identity(&bytes).ok().unwrap();
    assert_eq!((header.writers, header.author, header.next), (2, 1, 3));
    assert!(check_restored_identity(true, &header, &records, true).is_ok());
    let mut registry = AuthorRegistry::new();
    assert!(import_identity(&mut registry, true, &header, &records, true).is_ok());
    assert!(registry.holds(1));
    let stale = IdentityHeader { writers: 2, author: 1, next: 4 };
    let mismatch = check_restored_identity(true, &stale, &records, true).err().unwrap();
    assert_eq!(refusal_message(&mismatch), "allocation/history consistency: next sequence mismatch");
}

#[test]
fn identity_storage_is_checked_before_use() {
    for bytes in [&b""[..], &b"SMOI"[..], &b"SMOI\x01short"[..]] {
        let refusal = decode_identity(bytes).err().unwrap();
        assert_eq!(refusal_message(&refusal), "allocation/history consistency: invalid identity storage");
    }
    let mut wrong_version = encode_identity(1, 0, 1, b"");
    wrong_version[4] = 2;
    assert!(decode_identity(&wrong_version).is_err());
    let mut wrong_magic = encode_identity(1, 0, 1, b"");
    wrong_magic[0] = b'X';
    assert!(decode_identity(&wrong_magic).is_err());
    let exact = encode_identity(1, 0, 1, b"");
    assert_eq!(exact.len(), IDENTITY_HEADER_LEN);
    let header = decode_identity(&exact).ok().unwrap();
    assert_eq!((header.writers, header.author, header.next), (1, 0, 1));
    let words = encode_identity(u64::MAX, 7, 1 << 40, b"tail");
    let header = decode_identity(&words).ok().unwrap();
    assert_eq!((header.writers, header.author, header.next), (u64::MAX, 7, 1 << 40));
}

#[test]
fn one_live_allocated_writer_per_author() {
    let mut registry = AuthorRegistry::new();
    assert!(!registry.holds(4));
    assert!(registry.claim(true, 4).is_ok());
    assert!(registry.holds(4));
    let twice = registry.claim(true, 4).err().unwrap();
    assert_eq!(refusal_message(&twice), "author already has a live allocated writer");
    assert!(registry.claim(true, 5).is_ok());
    registry.release(4);
    assert!(!registry.holds(4));
    assert!(registry.holds(5));
    assert!(registry.claim(true, 4).is_ok());
    let invalid = registry.claim(false, 6).err().unwrap();
    assert!(matches!(invalid, Refusal::InvalidWriterConfiguration));
    assert!(!registry.holds(6));
}

#[test]
fn allocated_add_takes_the_core_token_or_is_refused() {
    assert_eq!(take_allocated_token(Some(41)).ok(), Some(41));
    let refusal = take_allocated_token(None).err().unwrap();
    assert_eq!(refusal_message(&refusal), "token allocation exhausted");
}

#[test]
fn one_refused_incoming_record_refuses_the_whole_batch() {
    let known = vec![(0, 1)];
    let batch = vec![add(2, 1, 1), add(2, 1, 2)];
    assert!(check_incoming_batch(Some(2), 0, &batch, &known, true).is_ok());
    let mut forged = add(2, 1, 3);
    forged.add_token = Some(5);
    let batch = vec![add(2, 1, 1), forged, add(2, 0, 7)];
    let refusal = check_incoming_batch(Some(2), 0, &batch, &known, true).err().unwrap();
    assert_eq!(refusal_message(&refusal), "allocation/history consistency: token mismatch");
    let batch = vec![add(2, 1, 1), add(2, 0, 7)];
    let refusal = check_incoming_batch(Some(2), 0, &batch, &known, true).err().unwrap();
    assert_eq!(refusal_message(&refusal), "incoming record claims the local author");
    assert!(check_incoming_batch(None, 0, &batch, &known, true).is_ok());
    assert!(check_incoming_batch(Some(2), 0, &vec![], &known, true).is_ok());
}

#[test]
fn identity_import_claims_only_after_every_check() {
    let records = vec![add(3, 2, 1), remove(3, 2, 2)];
    let mut registry = AuthorRegistry::new();
    let stale = IdentityHeader { writers: 3, author: 2, next: 9 };
    let refusal = import_identity(&mut registry, true, &stale, &records, true).err().unwrap();
    assert!(matches!(refusal, Refusal::NextSequenceMismatch));
    assert!(!registry.holds(2));
    let gap = vec![add(3, 2, 2)];
    let header = IdentityHeader { writers: 3, author: 2, next: 3 };
    assert!(import_identity(&mut registry, true, &header, &gap, true).is_err());
    assert!(!registry.holds(2));
    assert!(import_identity(&mut registry, true, &header, &records, true).is_ok());
    assert!(registry.holds(2));
    let twice = import_identity(&mut registry, true, &header, &records, true).err().unwrap();
    assert_eq!(refusal_message(&twice), "author already has a live allocated writer");
    registry.release(2);
    assert!(import_identity(&mut registry, true, &header, &records, true).is_ok());
}

#[test]
fn complete_duplicate_free_history_always_gives_the_next_sequence() {
    for k in 0..6u64 {
        let mut records: Vec<OwnedRecord> = (1..=k).rev().map(|s| add(3, 1, s)).collect();
        records.push(add(3, 0, 1));
        records.push(remove(3, 2, 4));
        assert_eq!(checked_next(true, 3, 1, &records, true).ok(), Some(k + 1));
    }
}
