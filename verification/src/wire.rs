//! What the bindings read from the core's results, held as plain values.
//!
//! The core crate renders each wire error as text; a binding either names an
//! error kind in its own words or passes that text on. [`CoreCause`] keeps
//! both: the kind the bindings tell apart, and the core's rendering.
use vstd::prelude::*;

verus! {

/// The kinds of core wire error that a binding answers in its own words.
/// Every other kind is [`WireFault::Other`].
#[derive(Clone, Copy)]
pub enum WireFault {
    ZeroSequenceAdd { replica: u64 },
    ZeroSequenceRemove { replica: u64 },
    RecordCollision,
    ReplicaCountMismatch,
    DeltaTypeMismatch,
    MissingShape,
    OwnershipViolation,
    CollectionElementLimitExceeded { max_elements: u64 },
    Other,
}

/// A core wire error: its kind, and the text the core renders for it.
pub struct CoreCause {
    pub fault: WireFault,
    pub text: String,
}

/// The same cause, owned again.
pub fn copy_cause(cause: &CoreCause) -> (c: CoreCause)
    ensures
        c == *cause,
{
    CoreCause { fault: cause.fault, text: cause.text.clone() }
}

/// A failure to decode an event log under decode limits.
pub enum DecodeFault {
    Wire(CoreCause),
    RecordLimitExceeded { max_records: u64 },
}

/// The core's verdict on admitting one record into an event log.
pub enum Admission {
    Accepted,
    Duplicate,
    Collision,
    Invalid(CoreCause),
}

/// The kind of a verdict, without the cause of an invalid record.
#[derive(PartialEq, Eq, Structural, Clone, Copy)]
pub enum Verdict {
    Accepted,
    Duplicate,
    Collision,
    Invalid,
}

/// The kind of a verdict.
pub open spec fn verdict_kind(a: Admission) -> Verdict {
    match a {
        Admission::Accepted => Verdict::Accepted,
        Admission::Duplicate => Verdict::Duplicate,
        Admission::Collision => Verdict::Collision,
        Admission::Invalid(_) => Verdict::Invalid,
    }
}

/// The kind of a verdict.
pub fn verdict_of(admission: &Admission) -> (v: Verdict)
    ensures
        v == verdict_kind(*admission),
{
    match admission {
        Admission::Accepted => Verdict::Accepted,
        Admission::Duplicate => Verdict::Duplicate,
        Admission::Collision => Verdict::Collision,
        Admission::Invalid(_) => Verdict::Invalid,
    }
}

/// A failure to append a local record to an event log.
pub enum AppendFault {
    SequenceExhausted,
    InvalidRecord(CoreCause),
}

/// A failure of a replica operation, as the since-batch path meets it.
pub enum ReplicaFault {
    LogDecode(DecodeFault),
    Other,
}

/// Decode budgets handed to the core's event-log decoder.
pub struct DecodeLimits {
    pub max_collection_elements: Option<u64>,
    pub max_records: Option<u64>,
}

/// The text of a string literal, owned.
pub fn owned(lit: &str) -> (s: String)
    ensures
        s@ == lit@,
{
    String::from_str(lit)
}

/// `prefix` followed by `tail`.
pub fn joined(prefix: &str, tail: &str) -> (s: String)
    ensures
        s@ == prefix@ + tail@,
{
    String::from_str(prefix).concat(tail)
}

/// The name of a verdict, as every merge path reports it.
pub open spec fn admission_text(a: Admission) -> Seq<char> {
    match a {
        Admission::Accepted => "accepted"@,
        Admission::Duplicate => "duplicate"@,
        Admission::Collision => "collision"@,
        Admission::Invalid(_) => "invalid"@,
    }
}

/// The name of a verdict, one of `"accepted"`, `"duplicate"`, `"collision"` or `"invalid"`.
pub fn admission_name(admission: &Admission) -> (s: String)
    ensures
        s@ == admission_text(*admission),
{
    match admission {
        Admission::Accepted => owned("accepted"),
        Admission::Duplicate => owned("duplicate"),
        Admission::Collision => owned("collision"),
        Admission::Invalid(_) => owned("invalid"),
    }
}

/// The verdict names of a batch, one per record in log order.
pub fn admission_names(admissions: &Vec<Admission>) -> (names: Vec<String>)
    ensures
        names.len() == admissions.len(),
        forall|i: int| 0 <= i < admissions.len() ==> #[trigger] names@[i]@ == admission_text(
            admissions@[i],
        ),
{
    let mut names: Vec<String> = Vec::new();
    let mut k: usize = 0;
    while k < admissions.len()
        invariant
            k <= admissions.len(),
            names.len() == k,
            forall|i: int| 0 <= i < k ==> #[trigger] names@[i]@ == admission_text(admissions@[i]),
        decreases admissions.len() - k,
    {
        names.push(admission_name(&admissions[k]));
        k = k + 1;
    }
    names
}

/// A verdict's kind keeps its variant, and its name tells the four verdicts
/// apart: only an accepted record is `"accepted"` and of kind `Accepted`, only
/// a duplicate is `"duplicate"`, only a collision is `"collision"`, only an
/// invalid record is `"invalid"`.
pub proof fn law_verdict_kind_keeps_variant(a: Admission)
    ensures
        (verdict_kind(a) == Verdict::Accepted) == (a is Accepted),
        (verdict_kind(a) == Verdict::Duplicate) == (a is Duplicate),
        (verdict_kind(a) == Verdict::Collision) == (a is Collision),
        (verdict_kind(a) == Verdict::Invalid) == (a is Invalid),
        (admission_text(a) == "accepted"@) == (a is Accepted),
        (admission_text(a) == "duplicate"@) == (a is Duplicate),
        (admission_text(a) == "collision"@) == (a is Collision),
        (admission_text(a) == "invalid"@) == (a is Invalid),
{
    reveal_strlit("accepted");
    reveal_strlit("duplicate");
    reveal_strlit("collision");
    reveal_strlit("invalid");
    assert("accepted"@ != "duplicate"@ && "accepted"@ != "collision"@ && "accepted"@
        != "invalid"@) by {
        assert("accepted"@.len() == 8);
        assert("duplicate"@.len() == 9);
        assert("collision"@.len() == 9);
        assert("invalid"@.len() == 7);
    }
    assert("duplicate"@ != "collision"@) by {
        assert("duplicate"@[0] != "collision"@[0]);
    }
    assert("duplicate"@ != "invalid"@ && "collision"@ != "invalid"@) by {
        assert("invalid"@.len() == 7);
    }
}

} // verus!
