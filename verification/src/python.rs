//! Decisions of the Python binding: which `ValueError` text each core failure
//! raises, and the checks made on values crossing from Python.
use vstd::prelude::*;
use crate::text::{decimal, decimal_text};
use crate::wasm::record_decode_spec;
use crate::wire::{
    admission_name, admission_text, joined, owned, Admission, CoreCause, DecodeFault, WireFault,
};

verus! {

/// The largest coordinate count a counter accepts: its `u64` coordinates
/// must fit in `isize::MAX` bytes.
pub open spec fn counter_capacity() -> int {
    isize::MAX as int / 8
}

/// Accept a counter's coordinate count, or refuse one whose coordinates
/// could not be allocated, before any allocation can fail.
pub fn numeric_replicas(replicas: usize) -> (r: Result<usize, String>)
    ensures
        replicas <= counter_capacity() ==> r == Ok::<usize, String>(replicas),
        replicas > counter_capacity() ==> (r matches Err(m) && m@
            == "replicas exceeds counter capacity"@),
{
    if replicas > isize::MAX as usize / 8 {
        return Err(owned("replicas exceeds counter capacity"));
    }
    Ok(replicas)
}

/// The text of a record the core could not decode.
pub fn record_decode_error(error: &CoreCause) -> (m: String)
    ensures
        m@ == "failed to decode record: "@ + error.text@,
{
    joined("failed to decode record: ", error.text.as_str())
}

/// The text of a wire error met while decoding an event log.
pub open spec fn log_wire_text(cause: CoreCause) -> Seq<char> {
    match cause.fault {
        WireFault::RecordCollision => "record ID collision"@,
        WireFault::ReplicaCountMismatch => "replica count mismatch"@,
        WireFault::DeltaTypeMismatch => "delta type mismatch"@,
        WireFault::MissingShape => "event log missing shape"@,
        WireFault::OwnershipViolation =>
            "counter coordinate out of range or not owned by record author"@,
        WireFault::ZeroSequenceAdd { .. } => cause.text@,
        WireFault::ZeroSequenceRemove { .. } => cause.text@,
        _ => "failed to decode event log: "@ + cause.text@,
    }
}

/// Name a wire error met while decoding an event log; a zero-sequence record
/// keeps the core's own text, which names the record and a recovery step.
pub fn event_log_decode_error(error: &CoreCause) -> (m: String)
    ensures
        m@ == log_wire_text(*error),
{
    match error.fault {
        WireFault::RecordCollision => owned("record ID collision"),
        WireFault::ReplicaCountMismatch => owned("replica count mismatch"),
        WireFault::DeltaTypeMismatch => owned("delta type mismatch"),
        WireFault::MissingShape => owned("event log missing shape"),
        WireFault::OwnershipViolation => owned(
            "counter coordinate out of range or not owned by record author",
        ),
        WireFault::ZeroSequenceAdd { .. } => error.text.clone(),
        WireFault::ZeroSequenceRemove { .. } => error.text.clone(),
        _ => joined("failed to decode event log: ", error.text.as_str()),
    }
}

/// The text of an event log that failed to decode under its budgets.
pub open spec fn bounded_log_text(error: DecodeFault) -> Seq<char> {
    match error {
        DecodeFault::Wire(cause) => log_wire_text(cause),
        DecodeFault::RecordLimitExceeded { max_records } =>
            "failed to decode event log: RecordLimitExceeded: "@ + decimal(max_records as nat),
    }
}

/// Name an event log that failed to decode under its budgets.
pub fn bounded_event_log_decode_error(error: &DecodeFault) -> (m: String)
    ensures
        m@ == bounded_log_text(*error),
{
    match error {
        DecodeFault::Wire(cause) => event_log_decode_error(cause),
        DecodeFault::RecordLimitExceeded { max_records } => {
            let digits = decimal_text(*max_records as u128);
            joined("failed to decode event log: RecordLimitExceeded: ", digits.as_str())
        },
    }
}

/// What a single-record merge reports: the verdict's name, or the text of
/// the `ValueError` an invalid record raises.
pub open spec fn verdict_text(admission: Admission) -> Result<Seq<char>, Seq<char>> {
    match admission {
        Admission::Invalid(cause) => match cause.fault {
            WireFault::ZeroSequenceAdd { .. } => Err(cause.text@),
            WireFault::ZeroSequenceRemove { .. } => Err(cause.text@),
            _ => Err("invalid record"@),
        },
        _ => Ok(admission_text(admission)),
    }
}

/// A single record reports the verdict a log merge reports for it: a
/// duplicate or collision is a verdict, not an error. An invalid record raises.
pub fn record_verdict(admission: &Admission) -> (r: Result<String, String>)
    ensures
        match r {
            Ok(s) => verdict_text(*admission) == Ok::<Seq<char>, Seq<char>>(s@),
            Err(m) => verdict_text(*admission) == Err::<Seq<char>, Seq<char>>(m@),
        },
{
    match admission {
        Admission::Invalid(cause) => match cause.fault {
            WireFault::ZeroSequenceAdd { .. } => Err(cause.text.clone()),
            WireFault::ZeroSequenceRemove { .. } => Err(cause.text.clone()),
            _ => Err(owned("invalid record")),
        },
        _ => Ok(admission_name(admission)),
    }
}

/// How the string OR-Set replica reports one record; any invalid record
/// raises `"invalid record"`.
pub fn string_orset_record_verdict(admission: &Admission) -> (r: Result<String, String>)
    ensures
        admission is Invalid ==> (r matches Err(m) && m@ == "invalid record"@),
        !(admission is Invalid) ==> (r matches Ok(s) && s@ == admission_text(*admission)),
{
    match admission {
        Admission::Invalid(_) => Err(owned("invalid record")),
        _ => Ok(admission_name(admission)),
    }
}

/// The collection-budget failure text.
pub open spec fn collection_limit_text(max_elements: u64) -> Seq<char> {
    "maxCollectionElements limit exceeded: "@ + decimal(max_elements as nat)
}

fn collection_limit_message(max_elements: u64) -> (m: String)
    ensures
        m@ == collection_limit_text(max_elements),
{
    let digits = decimal_text(max_elements as u128);
    joined("maxCollectionElements limit exceeded: ", digits.as_str())
}

/// The text of a string OR-Set record the core could not decode.
pub open spec fn string_orset_record_text(cause: CoreCause) -> Seq<char> {
    match cause.fault {
        WireFault::CollectionElementLimitExceeded { max_elements } => collection_limit_text(
            max_elements,
        ),
        _ => "failed to decode record: "@ + cause.text@,
    }
}

/// Name a string OR-Set record the core could not decode; the text is the
/// WebAssembly binding's.
pub fn string_orset_record_decode_error(error: &CoreCause) -> (m: String)
    ensures
        m@ == string_orset_record_text(*error),
{
    match error.fault {
        WireFault::CollectionElementLimitExceeded { max_elements } => collection_limit_message(
            max_elements,
        ),
        _ => joined("failed to decode record: ", error.text.as_str()),
    }
}

/// The text of a string OR-Set event log that failed to decode.
pub open spec fn string_orset_log_text(error: DecodeFault) -> Seq<char> {
    match error {
        DecodeFault::Wire(cause) => match cause.fault {
            WireFault::CollectionElementLimitExceeded { max_elements } => collection_limit_text(
                max_elements,
            ),
            WireFault::RecordCollision => "record ID collision"@,
            WireFault::ReplicaCountMismatch => "replica count mismatch"@,
            WireFault::DeltaTypeMismatch => "delta type mismatch"@,
            WireFault::MissingShape => "event log missing shape"@,
            _ => "failed to decode event log: "@ + cause.text@,
        },
        DecodeFault::RecordLimitExceeded { .. } => "failed to decode event log"@,
    }
}

/// Name a string OR-Set event log that failed to decode.
pub fn string_orset_log_decode_error(error: &DecodeFault) -> (m: String)
    ensures
        m@ == string_orset_log_text(*error),
{
    match error {
        DecodeFault::Wire(cause) => match cause.fault {
            WireFault::CollectionElementLimitExceeded { max_elements } => collection_limit_message(
                max_elements,
            ),
            WireFault::RecordCollision => owned("record ID collision"),
            WireFault::ReplicaCountMismatch => owned("replica count mismatch"),
            WireFault::DeltaTypeMismatch => owned("delta type mismatch"),
            WireFault::MissingShape => owned("event log missing shape"),
            _ => joined("failed to decode event log: ", cause.text.as_str()),
        },
        DecodeFault::RecordLimitExceeded { .. } => owned("failed to decode event log"),
    }
}

/// A zero-sequence record reads the same on the single-record path and the
/// log path: both raise the core's own text for it.
pub proof fn law_zero_sequence_cause_is_named_alike(cause: CoreCause)
    requires
        cause.fault is ZeroSequenceAdd || cause.fault is ZeroSequenceRemove,
    ensures
        verdict_text(Admission::Invalid(cause)) == Err::<Seq<char>, Seq<char>>(
            log_wire_text(cause),
        ),
        log_wire_text(cause) == cause.text@,
{
}

/// A single record reports the verdict a log merge lists for it: any record
/// the core does not find invalid reads as the same name on both paths.
pub proof fn law_record_reports_the_batch_verdict(admission: Admission)
    requires
        !(admission is Invalid),
    ensures
        verdict_text(admission) == Ok::<Seq<char>, Seq<char>>(admission_text(admission)),
{
}

/// A string OR-Set record that fails to decode reads in Python exactly as it
/// reads in the WebAssembly binding.
pub proof fn law_string_orset_record_text_matches_wasm(cause: CoreCause)
    ensures
        string_orset_record_text(cause) == record_decode_spec(cause).1,
{
}

/// Every record of a counter batch passes the ownership check before any is
/// admitted: one failing record raises for the whole batch. `checks[i]` is the
/// core's check of record `i`.
pub fn check_batch_ownership(checks: &Vec<bool>) -> (r: Result<(), String>)
    ensures
        r is Ok <==> forall|i: int| 0 <= i < checks.len() ==> checks@[i],
        r matches Err(m) ==> m@ == "counter coordinate out of range or not owned by record author"@,
{
    let mut k: usize = 0;
    while k < checks.len()
        invariant
            k <= checks.len(),
            forall|i: int| 0 <= i < k ==> checks@[i],
        decreases checks.len() - k,
    {
        if !checks[k] {
            return Err(owned("counter coordinate out of range or not owned by record author"));
        }
        k = k + 1;
    }
    Ok(())
}

} // verus!
