use safemesh_binding::python;
use safemesh_binding::text::decimal_text;
use safemesh_binding::wasm;
use safemesh_binding::wire::{
    admission_name, admission_names, Admission, AppendFault, CoreCause, DecodeFault, ReplicaFault, WireFault,
};

fn cause(fault: WireFault, text: &str) -> CoreCause {
    CoreCause { fault, text: text.to_string() }
}

const ZERO_REMOVE: &str =
    "record 1:0 removes with sequence 0. Recovery: re-append the remove with a nonzero sequence";

#[test]
fn decimal_text_renders_exact_digits() {
    assert_eq!(decimal_text(0), "0");
    assert_eq!(decimal_text(7), "7");
    assert_eq!(decimal_text(10), "10");
    assert_eq!(decimal_text(913827640125), "913827640125");
    assert_eq!(decimal_text(u64::MAX as u128), "18446744073709551615");
    assert_eq!(decimal_text(u128::MAX), u128::MAX.to_string());
}

#[test]
fn admission_names_every_verdict() {
    assert_eq!(admission_name(&Admission::Accepted), "accepted");
    assert_eq!(admission_name(&Admission::Duplicate), "duplicate");
    assert_eq!(admission_name(&Admission::Collision), "collision");
    assert_eq!(admission_name(&Admission::Invalid(cause(WireFault::Other, "x"))), "invalid");
}

#[test]
fn wasm_event_log_decode_js_error_names_each_cause() {
    let cases = [
        (WireFault::OwnershipViolation, 2, "counter coordinate out of range or not owned by record author".to_string()),
        (WireFault::CollectionElementLimitExceeded { max_elements: 4096 }, 3, "maxCollectionElements limit exceeded: 4096".to_string()),
        (WireFault::RecordCollision, 1, "record ID collision".to_string()),
        (WireFault::ReplicaCountMismatch, 1, "replica count mismatch".to_string()),
        (WireFault::DeltaTypeMismatch, 1, "delta type mismatch".to_string()),
        (WireFault::MissingShape, 1, "event log missing shape".to_string()),
        (WireFault::Other, 1, "failed to decode event log: unexpected wire tag".to_string()),
        (WireFault::ZeroSequenceRemove { replica: 1 }, 1, format!("failed to decode event log: {ZERO_REMOVE}")),
    ];
    for (fault, code, message) in cases {
        let text = if matches!(fault, WireFault::ZeroSequenceRemove { .. }) { ZERO_REMOVE } else { "unexpected wire tag" };
        let error = wasm::event_log_decode_js_error(&DecodeFault::Wire(cause(fault, text)));
        assert_eq!((error.code, error.message.as_str()), (code, message.as_str()));
    }
    let error = wasm::event_log_decode_js_error(&DecodeFault::RecordLimitExceeded { max_records: 3 });
    assert_eq!((error.code, error.message.as_str()), (1, "failed to decode event log: RecordLimitExceeded: 3"));
}

#[test]
fn wasm_string_orset_log_path_keeps_zero_sequence_text() {
    let zero = cause(WireFault::ZeroSequenceRemove { replica: 1 }, ZERO_REMOVE);
    let error = wasm::event_log_decode_error(&zero);
    assert_eq!((error.code, error.message.as_str()), (1, ZERO_REMOVE));
    let verdict = wasm::record_verdict(&Admission::Invalid(cause(WireFault::ZeroSequenceRemove { replica: 1 }, ZERO_REMOVE)));
    let error = verdict.err().unwrap();
    assert_eq!((error.code, error.message.as_str()), (1, ZERO_REMOVE));
    assert!(error.message.contains("Recovery: "));
    let owned = wasm::event_log_decode_error(&cause(WireFault::OwnershipViolation, "ownership violation"));
    assert_eq!(owned.message, "failed to decode event log: ownership violation");
    let limit = wasm::bounded_event_log_decode_error(&DecodeFault::RecordLimitExceeded { max_records: 2 });
    assert_eq!((limit.code, limit.message.as_str()), (1, "failed to decode event log: RecordLimitExceeded: 2"));
    let budget = wasm::bounded_event_log_decode_error(&DecodeFault::Wire(cause(WireFault::CollectionElementLimitExceeded { max_elements: 1 }, "")));
    assert_eq!((budget.code, budget.message.as_str()), (3, "maxCollectionElements limit exceeded: 1"));
}

#[test]
fn wasm_record_verdict_reports_verdicts_and_refuses_invalid_records() {
    assert_eq!(wasm::record_verdict(&Admission::Accepted).ok().unwrap(), "accepted");
    assert_eq!(wasm::record_verdict(&Admission::Duplicate).ok().unwrap(), "duplicate");
    assert_eq!(wasm::record_verdict(&Admission::Collision).ok().unwrap(), "collision");
    let owner = wasm::record_verdict(&Admission::Invalid(cause(WireFault::OwnershipViolation, "x"))).err().unwrap();
    assert_eq!((owner.code, owner.message.as_str()), (1, "writer replica does not match record author"));
    let other = wasm::record_verdict(&Admission::Invalid(cause(WireFault::MissingShape, "x"))).err().unwrap();
    assert_eq!((other.code, other.message.as_str()), (1, "invalid record"));
}

#[test]
fn wasm_record_decode_and_state_decode_errors() {
    let tag = wasm::record_decode_js_error(&cause(WireFault::Other, "unexpected wire tag"));
    assert_eq!((tag.code, tag.message.as_str()), (1, "failed to decode record: unexpected wire tag"));
    let budget = wasm::record_decode_js_error(&cause(WireFault::CollectionElementLimitExceeded { max_elements: 2 }, ""));
    assert_eq!((budget.code, budget.message.as_str()), (3, "maxCollectionElements limit exceeded: 2"));
    let state = wasm::wire_decode_error(&cause(WireFault::Other, "truncated"), "failed to decode state");
    assert_eq!((state.code, state.message.as_str()), (1, "failed to decode state"));
    let state = wasm::wire_decode_error(&cause(WireFault::CollectionElementLimitExceeded { max_elements: 9 }, ""), "failed to decode state");
    assert_eq!((state.code, state.message.as_str()), (3, "maxCollectionElements limit exceeded: 9"));
}

#[test]
fn wasm_append_and_since_errors() {
    let exhausted = wasm::append_error(&AppendFault::SequenceExhausted);
    assert_eq!((exhausted.code, exhausted.message.as_str()), (1, "event log sequence exhausted"));
    let owner = wasm::append_error(&AppendFault::InvalidRecord(cause(WireFault::OwnershipViolation, "x")));
    assert_eq!((owner.code, owner.message.as_str()), (1, "writer replica does not match record author"));
    let since = wasm::since_js_error(&ReplicaFault::LogDecode(DecodeFault::RecordLimitExceeded { max_records: 3 }));
    assert_eq!((since.code, since.message.as_str()), (1, "failed to decode event log: RecordLimitExceeded: 3"));
    let other = wasm::since_js_error(&ReplicaFault::Other);
    assert_eq!((other.code, other.message.as_str()), (1, "failed to encode event log"));
}

#[test]
fn wasm_boundary_checks_and_limits() {
    assert_eq!(wasm::checked_replica_count(268_435_455).ok(), Some(268_435_455));
    let error = wasm::checked_replica_count(268_435_456).err().unwrap();
    assert_eq!((error.code, error.message.as_str()), (2, "replicas exceeds wasm32 counter capacity"));
    let limits = wasm::decode_limits(Some(7), None);
    assert_eq!((limits.max_collection_elements, limits.max_records), (Some(7), None));
    assert_eq!(wasm::collection_limits(None, Some(65536)), Some(65536));
    assert_eq!(wasm::collection_limits(Some(4), Some(65536)), Some(4));
    assert_eq!(wasm::carrier_state(&vec![1, 2], &vec![3]), vec![1, 2, 3]);
    assert!(wasm::check_batch_ownership(&vec![true, true]).is_ok());
    let error = wasm::check_batch_ownership(&vec![true, false]).err().unwrap();
    assert_eq!((error.code, error.message.as_str()), (2, "counter coordinate out of range or not owned by record author"));
}

#[test]
fn python_messages_name_each_cause() {
    assert_eq!(python::record_decode_error(&cause(WireFault::Other, "unexpected wire tag")), "failed to decode record: unexpected wire tag");
    assert_eq!(python::event_log_decode_error(&cause(WireFault::OwnershipViolation, "x")), "counter coordinate out of range or not owned by record author");
    assert_eq!(python::event_log_decode_error(&cause(WireFault::RecordCollision, "x")), "record ID collision");
    assert_eq!(python::event_log_decode_error(&cause(WireFault::CollectionElementLimitExceeded { max_elements: 5 }, "collection limit 5")), "failed to decode event log: collection limit 5");
    assert_eq!(python::event_log_decode_error(&cause(WireFault::ZeroSequenceRemove { replica: 1 }, ZERO_REMOVE)), ZERO_REMOVE);
    assert_eq!(python::bounded_event_log_decode_error(&DecodeFault::RecordLimitExceeded { max_records: 12 }), "failed to decode event log: RecordLimitExceeded: 12");
    assert_eq!(python::string_orset_record_decode_error(&cause(WireFault::CollectionElementLimitExceeded { max_elements: 3 }, "")), "maxCollectionElements limit exceeded: 3");
    assert_eq!(python::string_orset_log_decode_error(&DecodeFault::RecordLimitExceeded { max_records: 1 }), "failed to decode event log");
    assert_eq!(python::string_orset_log_decode_error(&DecodeFault::Wire(cause(WireFault::ZeroSequenceAdd { replica: 1 }, "zero add"))), "failed to decode event log: zero add");
    assert_eq!(python::string_orset_log_decode_error(&DecodeFault::Wire(cause(WireFault::MissingShape, ""))), "event log missing shape");
}

#[test]
fn python_zero_sequence_mapping_keeps_core_cause_on_both_paths() {
    let zero = cause(WireFault::ZeroSequenceRemove { replica: 1 }, ZERO_REMOVE);
    let log = python::event_log_decode_error(&zero);
    let record = python::record_verdict(&Admission::Invalid(cause(WireFault::ZeroSequenceRemove { replica: 1 }, ZERO_REMOVE))).err().unwrap();
    assert_eq!(log, record);
    assert!(record.contains("Recovery: "));
    assert_eq!(python::record_verdict(&Admission::Invalid(cause(WireFault::OwnershipViolation, "x"))).err().unwrap(), "invalid record");
    assert_eq!(python::record_verdict(&Admission::Collision).ok().unwrap(), "collision");
    assert_eq!(python::string_orset_record_verdict(&Admission::Invalid(cause(WireFault::ZeroSequenceRemove { replica: 0 }, ZERO_REMOVE))).err().unwrap(), "invalid record");
    assert_eq!(python::string_orset_record_verdict(&Admission::Duplicate).ok().unwrap(), "duplicate");
}

#[test]
fn python_counter_capacity_boundary() {
    let capacity = isize::MAX as usize / 8;
    assert_eq!(python::numeric_replicas(capacity).ok(), Some(capacity));
    assert_eq!(python::numeric_replicas(capacity + 1).err().unwrap(), "replicas exceeds counter capacity");
    assert_eq!(python::check_batch_ownership(&vec![false]).err().unwrap(), "counter coordinate out of range or not owned by record author");
    assert!(python::check_batch_ownership(&vec![]).is_ok());
}

#[test]
fn record_and_log_paths_name_the_same_core_cause_after_their_prefix() {
    let tag = cause(WireFault::Other, "unexpected wire tag");
    let record = wasm::record_decode_js_error(&tag);
    let log = wasm::event_log_decode_error(&tag);
    let counter = wasm::event_log_decode_js_error(&DecodeFault::Wire(cause(WireFault::Other, "unexpected wire tag")));
    assert_eq!(record.message.strip_prefix("failed to decode record: "), Some("unexpected wire tag"));
    assert_eq!(log.message.strip_prefix("failed to decode event log: "), Some("unexpected wire tag"));
    assert_eq!((counter.code, counter.message.as_str()), (log.code, log.message.as_str()));
    assert_eq!(python::record_decode_error(&tag), record.message);
    assert_eq!(python::event_log_decode_error(&tag), log.message);
}

#[test]
fn batch_verdicts_are_named_in_log_order() {
    let admissions = vec![
        Admission::Accepted,
        Admission::Duplicate,
        Admission::Invalid(cause(WireFault::Other, "x")),
        Admission::Collision,
    ];
    assert_eq!(admission_names(&admissions), vec!["accepted", "duplicate", "invalid", "collision"]);
    assert!(admission_names(&vec![]).is_empty());
    for admission in [Admission::Accepted, Admission::Duplicate, Admission::Collision] {
        let name = admission_name(&admission);
        assert_eq!(wasm::record_verdict(&admission).ok(), Some(name.clone()));
        assert_eq!(python::record_verdict(&admission).ok(), Some(name));
    }
}

#[test]
fn string_orset_record_texts_match_across_bindings() {
    for fault in [WireFault::Other, WireFault::CollectionElementLimitExceeded { max_elements: 64 }, WireFault::MissingShape] {
        let error = cause(fault, "unexpected wire tag");
        assert_eq!(python::string_orset_record_decode_error(&error), wasm::record_decode_js_error(&error).message);
    }
}
