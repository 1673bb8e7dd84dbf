//! Decisions of the WebAssembly binding: which error code and text each core
//! failure becomes, and the checks made on values crossing from JavaScript.
use vstd::prelude::*;
use crate::allocation::{refusal_message, refusal_text, Refusal};
use crate::text::{decimal, decimal_text};
use crate::wire::{
    admission_name, admission_text, joined, owned, Admission, AppendFault, CoreCause,
    DecodeFault, DecodeLimits, ReplicaFault, WireFault,
};

verus! {

/// A binding failure as JavaScript receives it: a `SafeMeshError` code and message.
/// Code 1 is a decode or admission failure, 2 an argument refused at the
/// boundary, 3 a collection budget exceeded.
pub struct BindingError {
    pub code: u32,
    pub message: String,
}

/// A binding failure with `code` and `message`.
pub fn binding_error(code: u32, message: String) -> (e: BindingError)
    ensures
        e.code == code,
        e.message@ == message@,
{
    BindingError { code, message }
}

/// Code and text of the collection-budget failure.
pub open spec fn collection_limit_message(max_elements: u64) -> Seq<char> {
    "maxCollectionElements limit exceeded: "@ + decimal(max_elements as nat)
}

fn collection_limit_error(max_elements: u64) -> (e: BindingError)
    ensures
        e.code == 3,
        e.message@ == collection_limit_message(max_elements),
{
    let digits = decimal_text(max_elements as u128);
    binding_error(3, joined("maxCollectionElements limit exceeded: ", digits.as_str()))
}

fn record_limit_error(max_records: u64) -> (e: BindingError)
    ensures
        e.code == 1,
        e.message@ == "failed to decode event log: RecordLimitExceeded: "@ + decimal(
            max_records as nat,
        ),
{
    let digits = decimal_text(max_records as u128);
    binding_error(1, joined("failed to decode event log: RecordLimitExceeded: ", digits.as_str()))
}

/// Code and text for a state decode failure: the budget failure by name, any
/// other failure as `context`.
pub open spec fn wire_decode_spec(cause: CoreCause, context: Seq<char>) -> (u32, Seq<char>) {
    match cause.fault {
        WireFault::CollectionElementLimitExceeded { max_elements } => (
            3,
            collection_limit_message(max_elements),
        ),
        _ => (1, context),
    }
}

/// Refuse a full-state payload the core could not decode.
pub fn wire_decode_error(error: &CoreCause, context: &str) -> (e: BindingError)
    ensures
        (e.code, e.message@) == wire_decode_spec(*error, context@),
{
    match error.fault {
        WireFault::CollectionElementLimitExceeded { max_elements } => collection_limit_error(
            max_elements,
        ),
        _ => binding_error(1, owned(context)),
    }
}

/// Code and text for a single record the core could not decode.
pub open spec fn record_decode_spec(cause: CoreCause) -> (u32, Seq<char>) {
    match cause.fault {
        WireFault::CollectionElementLimitExceeded { max_elements } => (
            3,
            collection_limit_message(max_elements),
        ),
        _ => (1, "failed to decode record: "@ + cause.text@),
    }
}

/// Refuse record bytes the core could not decode, naming the core's cause.
pub fn record_decode_js_error(error: &CoreCause) -> (e: BindingError)
    ensures
        (e.code, e.message@) == record_decode_spec(*error),
{
    match error.fault {
        WireFault::CollectionElementLimitExceeded { max_elements } => collection_limit_error(
            max_elements,
        ),
        _ => binding_error(1, joined("failed to decode record: ", error.text.as_str())),
    }
}

/// Code and text for an event log refused by a replica that checks counter
/// ownership while decoding.
pub open spec fn counter_log_decode_spec(error: DecodeFault) -> (u32, Seq<char>) {
    match error {
        DecodeFault::RecordLimitExceeded { max_records } => (
            1,
            "failed to decode event log: RecordLimitExceeded: "@ + decimal(max_records as nat),
        ),
        DecodeFault::Wire(cause) => match cause.fault {
            WireFault::OwnershipViolation => (
                2,
                "counter coordinate out of range or not owned by record author"@,
            ),
            WireFault::CollectionElementLimitExceeded { max_elements } => (
                3,
                collection_limit_message(max_elements),
            ),
            WireFault::RecordCollision => (1, "record ID collision"@),
            WireFault::ReplicaCountMismatch => (1, "replica count mismatch"@),
            WireFault::DeltaTypeMismatch => (1, "delta type mismatch"@),
            WireFault::MissingShape => (1, "event log missing shape"@),
            _ => (1, "failed to decode event log: "@ + cause.text@),
        },
    }
}

/// Refuse an event log the core could not decode.
pub fn event_log_decode_js_error(error: &DecodeFault) -> (e: BindingError)
    ensures
        (e.code, e.message@) == counter_log_decode_spec(*error),
{
    match error {
        DecodeFault::RecordLimitExceeded { max_records } => record_limit_error(*max_records),
        DecodeFault::Wire(cause) => match cause.fault {
            WireFault::OwnershipViolation => binding_error(
                2,
                owned("counter coordinate out of range or not owned by record author"),
            ),
            WireFault::CollectionElementLimitExceeded { max_elements } => collection_limit_error(
                max_elements,
            ),
            WireFault::RecordCollision => binding_error(1, owned("record ID collision")),
            WireFault::ReplicaCountMismatch => binding_error(1, owned("replica count mismatch")),
            WireFault::DeltaTypeMismatch => binding_error(1, owned("delta type mismatch")),
            WireFault::MissingShape => binding_error(1, owned("event log missing shape")),
            _ => binding_error(1, joined("failed to decode event log: ", cause.text.as_str())),
        },
    }
}

/// Code and text for a wire error met while decoding an event log on the
/// string OR-Set path, which names zero-sequence records as the core does.
pub open spec fn log_wire_spec(cause: CoreCause) -> (u32, Seq<char>) {
    match cause.fault {
        WireFault::CollectionElementLimitExceeded { max_elements } => (
            3,
            collection_limit_message(max_elements),
        ),
        WireFault::RecordCollision => (1, "record ID collision"@),
        WireFault::ReplicaCountMismatch => (1, "replica count mismatch"@),
        WireFault::DeltaTypeMismatch => (1, "delta type mismatch"@),
        WireFault::MissingShape => (1, "event log missing shape"@),
        WireFault::ZeroSequenceAdd { .. } => (1, cause.text@),
        WireFault::ZeroSequenceRemove { .. } => (1, cause.text@),
        _ => (1, "failed to decode event log: "@ + cause.text@),
    }
}

/// Refuse an event log whose decoding met `error`.
pub fn event_log_decode_error(error: &CoreCause) -> (e: BindingError)
    ensures
        (e.code, e.message@) == log_wire_spec(*error),
{
    match error.fault {
        WireFault::CollectionElementLimitExceeded { max_elements } => collection_limit_error(
            max_elements,
        ),
        WireFault::RecordCollision => binding_error(1, owned("record ID collision")),
        WireFault::ReplicaCountMismatch => binding_error(1, owned("replica count mismatch")),
        WireFault::DeltaTypeMismatch => binding_error(1, owned("delta type mismatch")),
        WireFault::MissingShape => binding_error(1, owned("event log missing shape")),
        WireFault::ZeroSequenceAdd { .. } => binding_error(1, error.text.clone()),
        WireFault::ZeroSequenceRemove { .. } => binding_error(1, error.text.clone()),
        _ => binding_error(1, joined("failed to decode event log: ", error.text.as_str())),
    }
}

/// Code and text for a bounded event-log decode failure on the string OR-Set path.
pub open spec fn bounded_log_decode_spec(error: DecodeFault) -> (u32, Seq<char>) {
    match error {
        DecodeFault::Wire(cause) => log_wire_spec(cause),
        DecodeFault::RecordLimitExceeded { max_records } => (
            1,
            "failed to decode event log: RecordLimitExceeded: "@ + decimal(max_records as nat),
        ),
    }
}

/// Refuse an event log that failed to decode under its budgets.
pub fn bounded_event_log_decode_error(error: &DecodeFault) -> (e: BindingError)
    ensures
        (e.code, e.message@) == bounded_log_decode_spec(*error),
{
    match error {
        DecodeFault::Wire(cause) => event_log_decode_error(cause),
        DecodeFault::RecordLimitExceeded { max_records } => record_limit_error(*max_records),
    }
}

/// What a single-record merge reports: the verdict's name, or the refusal of
/// an invalid record.
pub open spec fn verdict_spec(admission: Admission) -> Result<Seq<char>, (u32, Seq<char>)> {
    match admission {
        Admission::Invalid(cause) => match cause.fault {
            WireFault::ZeroSequenceAdd { .. } => Err((1, cause.text@)),
            WireFault::ZeroSequenceRemove { .. } => Err((1, cause.text@)),
            WireFault::OwnershipViolation => Err(
                (1, "writer replica does not match record author"@),
            ),
            _ => Err((1, "invalid record"@)),
        },
        _ => Ok(admission_text(admission)),
    }
}

/// A single record reports the verdict a log merge reports for it: a
/// duplicate or collision is a verdict, not an error. An invalid record is refused.
pub fn record_verdict(admission: &Admission) -> (r: Result<String, BindingError>)
    ensures
        match r {
            Ok(s) => verdict_spec(*admission) == Ok::<Seq<char>, (u32, Seq<char>)>(s@),
            Err(e) => verdict_spec(*admission) == Err::<Seq<char>, (u32, Seq<char>)>(
                (e.code, e.message@),
            ),
        },
{
    match admission {
        Admission::Invalid(cause) => Err(invalid_record_error(cause)),
        _ => Ok(admission_name(admission)),
    }
}

/// The refusal of a record the core found invalid: a zero-sequence record
/// keeps the core's own text, a record not owned by its writer is named so.
fn invalid_record_error(cause: &CoreCause) -> (e: BindingError)
    ensures
        verdict_spec(Admission::Invalid(*cause)) == Err::<Seq<char>, (u32, Seq<char>)>(
            (e.code, e.message@),
        ),
{
    match cause.fault {
        WireFault::ZeroSequenceAdd { .. } => binding_error(1, cause.text.clone()),
        WireFault::ZeroSequenceRemove { .. } => binding_error(1, cause.text.clone()),
        WireFault::OwnershipViolation => binding_error(
            1,
            owned("writer replica does not match record author"),
        ),
        _ => binding_error(1, owned("invalid record")),
    }
}

/// Refuse a failed local append.
pub fn append_error(error: &AppendFault) -> (e: BindingError)
    ensures
        match *error {
            AppendFault::SequenceExhausted => e.code == 1 && e.message@
                == "event log sequence exhausted"@,
            AppendFault::InvalidRecord(cause) => verdict_spec(Admission::Invalid(cause)) == Err::<
                Seq<char>,
                (u32, Seq<char>),
            >((e.code, e.message@)),
        },
{
    match error {
        AppendFault::SequenceExhausted => binding_error(1, owned("event log sequence exhausted")),
        AppendFault::InvalidRecord(cause) => invalid_record_error(cause),
    }
}

/// Refuse a since batch: a batch over the receiver's budgets fails as the
/// receiver's merge would; any other failure is an encoding failure.
pub fn since_js_error(error: &ReplicaFault) -> (e: BindingError)
    ensures
        match *error {
            ReplicaFault::LogDecode(d) => (e.code, e.message@) == counter_log_decode_spec(d),
            ReplicaFault::Other => e.code == 1 && e.message@ == "failed to encode event log"@,
        },
{
    match error {
        ReplicaFault::LogDecode(d) => event_log_decode_js_error(d),
        ReplicaFault::Other => binding_error(1, owned("failed to encode event log")),
    }
}

/// The decode budgets of a merge: the collection budget and the record budget,
/// each absent where JavaScript passed none.
pub fn decode_limits(value: Option<u32>, max_records: Option<u32>) -> (l: DecodeLimits)
    ensures
        l.max_collection_elements == match value {
            Some(v) => Some(v as u64),
            None => None::<u64>,
        },
        l.max_records == match max_records {
            Some(v) => Some(v as u64),
            None => None::<u64>,
        },
{
    DecodeLimits {
        max_collection_elements: match value {
            Some(v) => Some(v as u64),
            None => None,
        },
        max_records: match max_records {
            Some(v) => Some(v as u64),
            None => None,
        },
    }
}

/// The collection budget of a record or state decode: the caller's, else the
/// core's wire default.
pub fn collection_limits(value: Option<u32>, wire_default: Option<u64>) -> (l: Option<u64>)
    ensures
        l == match value {
            Some(v) => Some(v as u64),
            None => wire_default,
        },
{
    match value {
        Some(v) => Some(v as u64),
        None => wire_default,
    }
}

/// The largest coordinate count a counter accepts on wasm32, where its `u64`
/// coordinates must fit in `i32::MAX` bytes.
pub open spec fn wasm32_counter_capacity() -> int {
    i32::MAX as int / 8
}

/// Accept a counter's coordinate count, or refuse one no wasm32 allocation
/// could hold, before allocation can trap and poison the instance.
pub fn checked_replica_count(replicas: usize) -> (r: Result<usize, BindingError>)
    ensures
        replicas <= wasm32_counter_capacity() ==> r == Ok::<usize, BindingError>(replicas),
        replicas > wasm32_counter_capacity() ==> (r matches Err(e) && e.code == 2 && e.message@
            == "replicas exceeds wasm32 counter capacity"@),
{
    if replicas > i32::MAX as usize / 8 {
        return Err(binding_error(2, owned("replicas exceeds wasm32 counter capacity")));
    }
    Ok(replicas)
}

/// The code of an allocated-writer refusal: an invalid writer configuration
/// is an argument refused at the boundary, everything else a code-1 failure.
pub open spec fn refusal_code(r: Refusal) -> u32 {
    match r {
        Refusal::InvalidWriterConfiguration => 2,
        _ => 1,
    }
}

/// Refuse an allocated-writer operation.
pub fn allocation_error(refusal: &Refusal) -> (e: BindingError)
    ensures
        e.code == refusal_code(*refusal),
        e.message@ == refusal_text(*refusal),
{
    let code: u32 = match refusal {
        Refusal::InvalidWriterConfiguration => 2,
        _ => 1,
    };
    binding_error(code, refusal_message(refusal))
}

/// A counter replica's complete carrier: increment coordinates, then
/// decrement coordinates.
pub fn carrier_state(increments: &Vec<u64>, decrements: &Vec<u64>) -> (s: Vec<u64>)
    ensures
        s@ == increments@ + decrements@,
{
    let mut s = increments.clone();
    let mut tail = decrements.clone();
    s.append(&mut tail);
    s
}

/// A zero-sequence record reads the same on the single-record path and the
/// log path: both refuse it with code 1 and the core's own text.
pub proof fn law_zero_sequence_cause_is_named_alike(cause: CoreCause)
    requires
        cause.fault is ZeroSequenceAdd || cause.fault is ZeroSequenceRemove,
    ensures
        verdict_spec(Admission::Invalid(cause)) == Err::<Seq<char>, (u32, Seq<char>)>(
            log_wire_spec(cause),
        ),
        log_wire_spec(cause) == (1u32, cause.text@),
{
}

/// A single record and an event log that the core refuses with the same wire
/// error (other than a budget) name the same core cause after their path's prefix.
pub proof fn law_record_and_log_name_the_same_cause(cause: CoreCause)
    requires
        cause.fault is Other,
    ensures
        record_decode_spec(cause) == (1u32, "failed to decode record: "@ + cause.text@),
        log_wire_spec(cause) == (1u32, "failed to decode event log: "@ + cause.text@),
        counter_log_decode_spec(DecodeFault::Wire(cause)) == log_wire_spec(cause),
{
}

/// A single record reports the verdict a log merge lists for it: any record
/// the core does not find invalid reads as the same name on both paths.
pub proof fn law_record_reports_the_batch_verdict(admission: Admission)
    requires
        !(admission is Invalid),
    ensures
        verdict_spec(admission) == Ok::<Seq<char>, (u32, Seq<char>)>(admission_text(admission)),
{
}

/// Refuse a counter record whose coordinate is out of range or not its author's.
pub fn counter_ownership_error() -> (e: BindingError)
    ensures
        e.code == 2,
        e.message@ == "counter coordinate out of range or not owned by record author"@,
{
    binding_error(2, owned("counter coordinate out of range or not owned by record author"))
}

/// Every record of a counter batch passes the ownership check before any is
/// admitted: one failing record refuses the whole batch. `checks[i]` is the
/// core's check of record `i`.
pub fn check_batch_ownership(checks: &Vec<bool>) -> (r: Result<(), BindingError>)
    ensures
        r is Ok <==> forall|i: int| 0 <= i < checks.len() ==> checks@[i],
        r matches Err(e) ==> e.code == 2 && e.message@
            == "counter coordinate out of range or not owned by record author"@,
{
    let mut k: usize = 0;
    while k < checks.len()
        invariant
            k <= checks.len(),
            forall|i: int| 0 <= i < k ==> checks@[i],
        decreases checks.len() - k,
    {
        if !checks[k] {
            return Err(counter_ownership_error());
        }
        k = k + 1;
    }
    Ok(())
}

} // verus!
