//! The allocated-writer rules of the string OR-Set replica: which records an
//! allocated author may hold, when its local history is complete, and which
//! sequence its next write takes.
//!
//! An allocated replica is configured with a writer count. Every add carries
//! the token the core's allocation rule gives its `(writers, author,
//! sequence)`; every record names an author below the writer count and a
//! nonzero sequence; and the author's own records number `1, 2, ..., n` with
//! no gap, so its next write is `n + 1`.
use vstd::prelude::*;
use crate::identity::{decode_identity, encode_identity, identity_bytes, IdentityHeader};
use crate::wire::{copy_cause, owned, CoreCause};

verus! {

/// What the ownership checks read of one OR-Set record.
pub struct OwnedRecord {
    /// The record's author.
    pub replica: u64,
    /// The record's sequence.
    pub sequence: u64,
    /// The token of an add; `None` for a remove.
    pub add_token: Option<u64>,
    /// The token the core's allocation rule gives `(writers, replica, sequence)`
    /// for the writer count the record is held to; `None` where it gives none.
    pub allocated_token: Option<u64>,
    /// The refusal of the core's OR-Set record hook, where it refuses the record.
    pub core_refusal: Option<CoreCause>,
}

/// Why an allocated-writer operation was refused.
pub enum Refusal {
    InvalidWriterConfiguration,
    LiveWriterExists,
    CoreRecordHook(CoreCause),
    InvalidAuthorOrSequence,
    TokenMismatch,
    IncompleteHistory,
    SequenceExhausted,
    ClaimsLocalAuthor,
    NoAllocatedIdentity,
    TokenAllocationExhausted,
    CallerSuppliedToken,
    InvalidIdentityStorage,
    NextSequenceMismatch,
}

/// The text of a refusal, the same in both bindings.
pub open spec fn refusal_text(r: Refusal) -> Seq<char> {
    match r {
        Refusal::InvalidWriterConfiguration => "invalid writer configuration"@,
        Refusal::LiveWriterExists => "author already has a live allocated writer"@,
        Refusal::CoreRecordHook(cause) => cause.text@,
        Refusal::InvalidAuthorOrSequence =>
            "allocation/history consistency: invalid record author or sequence"@,
        Refusal::TokenMismatch => "allocation/history consistency: token mismatch"@,
        Refusal::IncompleteHistory => "allocation/history consistency: incomplete local history"@,
        Refusal::SequenceExhausted => "allocation sequence exhausted"@,
        Refusal::ClaimsLocalAuthor => "incoming record claims the local author"@,
        Refusal::NoAllocatedIdentity => "replica has no allocated identity"@,
        Refusal::TokenAllocationExhausted => "token allocation exhausted"@,
        Refusal::CallerSuppliedToken =>
            "allocated replica rejects caller-supplied tokens; use appendAllocatedAdd"@,
        Refusal::InvalidIdentityStorage =>
            "allocation/history consistency: invalid identity storage"@,
        Refusal::NextSequenceMismatch => "allocation/history consistency: next sequence mismatch"@,
    }
}

/// The text of a refusal.
pub fn refusal_message(r: &Refusal) -> (s: String)
    ensures
        s@ == refusal_text(*r),
{
    match r {
        Refusal::InvalidWriterConfiguration => owned("invalid writer configuration"),
        Refusal::LiveWriterExists => owned("author already has a live allocated writer"),
        Refusal::CoreRecordHook(cause) => cause.text.clone(),
        Refusal::InvalidAuthorOrSequence => owned(
            "allocation/history consistency: invalid record author or sequence",
        ),
        Refusal::TokenMismatch => owned("allocation/history consistency: token mismatch"),
        Refusal::IncompleteHistory => owned(
            "allocation/history consistency: incomplete local history",
        ),
        Refusal::SequenceExhausted => owned("allocation sequence exhausted"),
        Refusal::ClaimsLocalAuthor => owned("incoming record claims the local author"),
        Refusal::NoAllocatedIdentity => owned("replica has no allocated identity"),
        Refusal::TokenAllocationExhausted => owned("token allocation exhausted"),
        Refusal::CallerSuppliedToken => owned(
            "allocated replica rejects caller-supplied tokens; use appendAllocatedAdd",
        ),
        Refusal::InvalidIdentityStorage => owned(
            "allocation/history consistency: invalid identity storage",
        ),
        Refusal::NextSequenceMismatch => owned(
            "allocation/history consistency: next sequence mismatch",
        ),
    }
}

/// The refusal of one record under `writers`, if any. With `core_hook`, the
/// core's OR-Set record hook is consulted first.
pub open spec fn owned_refusal(writers: u64, r: OwnedRecord, core_hook: bool) -> Option<Refusal> {
    if core_hook && r.core_refusal is Some {
        Some(Refusal::CoreRecordHook(r.core_refusal->0))
    } else if r.replica >= writers || r.sequence == 0 {
        Some(Refusal::InvalidAuthorOrSequence)
    } else if r.add_token is Some && r.allocated_token != r.add_token {
        Some(Refusal::TokenMismatch)
    } else {
        None
    }
}

/// Check that one record follows the allocation rule under `writers`.
pub fn check_owned_record(writers: u64, record: &OwnedRecord, core_hook: bool) -> (r: Result<
    (),
    Refusal,
>)
    ensures
        match owned_refusal(writers, *record, core_hook) {
            Some(e) => r == Err::<(), Refusal>(e),
            None => r is Ok,
        },
{
    if core_hook {
        if let Some(cause) = &record.core_refusal {
            return Err(Refusal::CoreRecordHook(copy_cause(cause)));
        }
    }
    if record.replica >= writers || record.sequence == 0 {
        return Err(Refusal::InvalidAuthorOrSequence);
    }
    if let Some(token) = record.add_token {
        let matches = match record.allocated_token {
            Some(allocated) => allocated == token,
            None => false,
        };
        if !matches {
            return Err(Refusal::TokenMismatch);
        }
    }
    Ok(())
}

/// The first refusal met scanning `records` in log order.
pub open spec fn first_refusal(writers: u64, records: Seq<OwnedRecord>, core_hook: bool) -> Option<
    Refusal,
>
    decreases records.len(),
{
    if records.len() == 0 {
        None
    } else {
        match first_refusal(writers, records.drop_last(), core_hook) {
            Some(e) => Some(e),
            None => owned_refusal(writers, records.last(), core_hook),
        }
    }
}

/// The sequences of `author`'s own records, in log order.
pub open spec fn local_sequences(records: Seq<OwnedRecord>, author: u64) -> Seq<u64>
    decreases records.len(),
{
    if records.len() == 0 {
        Seq::empty()
    } else if records.last().replica == author {
        local_sequences(records.drop_last(), author).push(records.last().sequence)
    } else {
        local_sequences(records.drop_last(), author)
    }
}

/// The largest value of `s`, or zero for an empty sequence.
pub open spec fn max_of(s: Seq<u64>) -> nat
    decreases s.len(),
{
    if s.len() == 0 {
        0
    } else if max_of(s.drop_last()) >= s.last() {
        max_of(s.drop_last())
    } else {
        s.last() as nat
    }
}

/// The sequence an allocated author writes next, or why there is none: the
/// writer configuration must be valid, every record must follow the
/// allocation rule, and the author's own records must be as many as their
/// largest sequence.
pub open spec fn next_sequence(
    config_valid: bool,
    writers: u64,
    author: u64,
    records: Seq<OwnedRecord>,
    core_hook: bool,
) -> Result<u64, Refusal> {
    if !config_valid {
        Err(Refusal::InvalidWriterConfiguration)
    } else {
        match first_refusal(writers, records, core_hook) {
            Some(e) => Err(e),
            None => {
                let local = local_sequences(records, author);
                if local.len() != max_of(local) {
                    Err(Refusal::IncompleteHistory)
                } else if max_of(local) == u64::MAX {
                    Err(Refusal::SequenceExhausted)
                } else {
                    Ok((max_of(local) + 1) as u64)
                }
            },
        }
    }
}

/// The next sequence of `author` over its complete local history.
/// `config_valid` is the core's verdict on the writer configuration.
pub fn checked_next(
    config_valid: bool,
    writers: u64,
    author: u64,
    records: &Vec<OwnedRecord>,
    core_hook: bool,
) -> (r: Result<u64, Refusal>)
    ensures
        r == next_sequence(config_valid, writers, author, records@, core_hook),
{
    if !config_valid {
        return Err(Refusal::InvalidWriterConfiguration);
    }
    let mut last: u64 = 0;
    let mut count: u64 = 0;
    let mut k: usize = 0;
    while k < records.len()
        invariant
            config_valid,
            k <= records.len(),
            first_refusal(writers, records@.take(k as int), core_hook) is None,
            last == max_of(local_sequences(records@.take(k as int), author)),
            count == local_sequences(records@.take(k as int), author).len(),
            count <= k,
        decreases records.len() - k,
    {
        let ghost before = records@.take(k as int);
        let ghost after = records@.take(k + 1);
        let record = &records[k];
        assert(after.drop_last() =~= before);
        assert(after.last() == records@[k as int]);
        match check_owned_record(writers, record, core_hook) {
            Err(e) => {
                assert(first_refusal(writers, after, core_hook) == Some(e));
                proof { lemma_first_refusal_prefix(writers, records@, core_hook, k + 1); }
                return Err(e);
            },
            Ok(()) => {},
        }
        proof {
            let lb = local_sequences(before, author);
            assert(lb.push(record.sequence).drop_last() =~= lb);
        }
        if record.replica == author {
            if record.sequence > last {
                last = record.sequence;
            }
            count = count + 1;
        }
        k = k + 1;
    }
    assert(records@.take(k as int) =~= records@);
    if count != last {
        return Err(Refusal::IncompleteHistory);
    }
    if last == u64::MAX {
        return Err(Refusal::SequenceExhausted);
    }
    Ok(last + 1)
}

/// A refusal in a prefix is the first refusal of the whole.
proof fn lemma_first_refusal_prefix(
    writers: u64,
    records: Seq<OwnedRecord>,
    core_hook: bool,
    n: int,
)
    requires
        0 <= n <= records.len(),
        first_refusal(writers, records.take(n), core_hook) is Some,
    ensures
        first_refusal(writers, records, core_hook) == first_refusal(
            writers,
            records.take(n),
            core_hook,
        ),
    decreases records.len() - n,
{
    if n < records.len() {
        assert(records.take(n + 1).drop_last() =~= records.take(n));
        lemma_first_refusal_prefix(writers, records, core_hook, n + 1);
    } else {
        assert(records.take(n) =~= records);
    }
}

/// The sequence a write takes: the next sequence, unless it is the last
/// representable one, which a write would leave with no cursor after it.
pub open spec fn write_sequence(
    config_valid: bool,
    writers: u64,
    author: u64,
    records: Seq<OwnedRecord>,
    core_hook: bool,
) -> Result<u64, Refusal> {
    match next_sequence(config_valid, writers, author, records, core_hook) {
        Ok(n) => if n == u64::MAX {
            Err(Refusal::SequenceExhausted)
        } else {
            Ok(n)
        },
        Err(e) => Err(e),
    }
}

/// The sequence the author's next write takes. An exhausted but consistent
/// identity stays exportable; only a write is refused.
pub fn checked_write_next(
    config_valid: bool,
    writers: u64,
    author: u64,
    records: &Vec<OwnedRecord>,
    core_hook: bool,
) -> (r: Result<u64, Refusal>)
    ensures
        r == write_sequence(config_valid, writers, author, records@, core_hook),
{
    let next = checked_next(config_valid, writers, author, records, core_hook)?;
    if next == u64::MAX {
        return Err(Refusal::SequenceExhausted);
    }
    Ok(next)
}

/// `id` is among `known`.
pub open spec fn is_known(known: Seq<(u64, u64)>, id: (u64, u64)) -> bool {
    exists|i: int| 0 <= i < known.len() && known[i] == id
}

/// The refusal of an incoming record by an allocated replica, if any: it must
/// follow the allocation rule and may claim the local author only where the
/// log already holds that record.
pub open spec fn incoming_refusal(
    allocated: Option<u64>,
    author: u64,
    r: OwnedRecord,
    known: Seq<(u64, u64)>,
    core_hook: bool,
) -> Option<Refusal> {
    match allocated {
        None => None,
        Some(writers) => match owned_refusal(writers, r, core_hook) {
            Some(e) => Some(e),
            None => if r.replica == author && !is_known(known, (r.replica, r.sequence)) {
                Some(Refusal::ClaimsLocalAuthor)
            } else {
                None
            },
        },
    }
}

/// Check an incoming record against the replica's allocation, where it has
/// one. `known` lists the record IDs the replica's log holds.
pub fn check_incoming(
    allocated: Option<u64>,
    author: u64,
    record: &OwnedRecord,
    known: &Vec<(u64, u64)>,
    core_hook: bool,
) -> (r: Result<(), Refusal>)
    ensures
        match incoming_refusal(allocated, author, *record, known@, core_hook) {
            Some(e) => r == Err::<(), Refusal>(e),
            None => r is Ok,
        },
{
    if let Some(writers) = allocated {
        check_owned_record(writers, record, core_hook)?;
        if record.replica == author {
            let mut k: usize = 0;
            while k < known.len()
                invariant
                    allocated == Some(writers),
                    owned_refusal(writers, *record, core_hook) is None,
                    record.replica == author,
                    k <= known.len(),
                    forall|i: int| 0 <= i < k ==> known@[i] != (record.replica, record.sequence),
                decreases known.len() - k,
            {
                let (a, s) = known[k];
                if a == record.replica && s == record.sequence {
                    assert(known@[k as int] == (record.replica, record.sequence));
                    return Ok(());
                }
                k = k + 1;
            }
            return Err(Refusal::ClaimsLocalAuthor);
        }
    }
    Ok(())
}

/// What an allocated replica admits from a peer, stated field by field: every
/// incoming record, add or remove, must name an author below the writer count
/// and a nonzero sequence, carry (if it is an add) the token the allocation
/// rule gives its ID, pass the core hook where it is consulted, and, where it
/// names the local author, repeat a record ID the log already holds in both
/// author and sequence. A record that passes the allocation rule but names
/// the local author under an ID the log lacks is refused as a claim on the
/// local author. A replica without an allocation admits every record.
pub proof fn law_incoming_admission(
    allocated: Option<u64>,
    author: u64,
    r: OwnedRecord,
    known: Seq<(u64, u64)>,
    core_hook: bool,
)
    ensures
        allocated is None ==> incoming_refusal(allocated, author, r, known, core_hook) is None,
        allocated matches Some(w) ==> (incoming_refusal(allocated, author, r, known, core_hook)
            is None <==> {
            &&& core_hook ==> r.core_refusal is None
            &&& r.replica < w
            &&& r.sequence != 0
            &&& r.add_token is Some ==> r.allocated_token == r.add_token
            &&& r.replica == author ==> exists|i: int|
                0 <= i < known.len() && (#[trigger] known[i]).0 == r.replica && known[i].1
                    == r.sequence
        }),
        allocated matches Some(w) ==> ({
            &&& !(core_hook && r.core_refusal is Some)
            &&& r.replica < w
            &&& r.sequence != 0
            &&& (r.add_token is Some ==> r.allocated_token == r.add_token)
            &&& r.replica == author
            &&& forall|i: int| 0 <= i < known.len() ==> #[trigger] known[i] != (r.replica, r.sequence)
        } ==> incoming_refusal(allocated, author, r, known, core_hook) == Some(
            Refusal::ClaimsLocalAuthor,
        )),
{
    if let Some(w) = allocated {
        if r.replica == author && is_known(known, (r.replica, r.sequence)) {
            let i = choose|i: int| 0 <= i < known.len() && known[i] == (r.replica, r.sequence);
            assert(known[i].0 == r.replica && known[i].1 == r.sequence);
        }
        if r.replica == author && (exists|i: int|
            0 <= i < known.len() && (#[trigger] known[i]).0 == r.replica && known[i].1
                == r.sequence) {
            let i = choose|i: int|
                0 <= i < known.len() && (#[trigger] known[i]).0 == r.replica && known[i].1
                    == r.sequence;
            assert(known[i] == (r.replica, r.sequence));
        }
    }
}

/// The first refusal among a batch of incoming records, each checked against
/// the log as it stood before the batch.
pub open spec fn first_incoming_refusal(
    allocated: Option<u64>,
    author: u64,
    records: Seq<OwnedRecord>,
    known: Seq<(u64, u64)>,
    core_hook: bool,
) -> Option<Refusal>
    decreases records.len(),
{
    if records.len() == 0 {
        None
    } else {
        match first_incoming_refusal(allocated, author, records.drop_last(), known, core_hook) {
            Some(e) => Some(e),
            None => incoming_refusal(allocated, author, records.last(), known, core_hook),
        }
    }
}

/// Check every record of a decoded batch before any is admitted: one refused
/// record refuses the whole batch, with the first refusal in log order.
pub fn check_incoming_batch(
    allocated: Option<u64>,
    author: u64,
    records: &Vec<OwnedRecord>,
    known: &Vec<(u64, u64)>,
    core_hook: bool,
) -> (r: Result<(), Refusal>)
    ensures
        match first_incoming_refusal(allocated, author, records@, known@, core_hook) {
            Some(e) => r == Err::<(), Refusal>(e),
            None => r is Ok,
        },
        r is Ok <==> forall|i: int|
            0 <= i < records.len() ==> #[trigger] incoming_refusal(
                allocated,
                author,
                records@[i],
                known@,
                core_hook,
            ) is None,
{
    let mut k: usize = 0;
    while k < records.len()
        invariant
            k <= records.len(),
            first_incoming_refusal(allocated, author, records@.take(k as int), known@, core_hook)
                is None,
            forall|i: int|
                0 <= i < k ==> #[trigger] incoming_refusal(
                    allocated,
                    author,
                    records@[i],
                    known@,
                    core_hook,
                ) is None,
        decreases records.len() - k,
    {
        let ghost before = records@.take(k as int);
        let ghost after = records@.take(k + 1);
        assert(after.drop_last() =~= before);
        assert(after.last() == records@[k as int]);
        match check_incoming(allocated, author, &records[k], known, core_hook) {
            Err(e) => {
                proof {
                    lemma_first_incoming_prefix(allocated, author, records@, known@, core_hook, k + 1);
                }
                return Err(e);
            },
            Ok(()) => {},
        }
        k = k + 1;
    }
    assert(records@.take(k as int) =~= records@);
    Ok(())
}

/// A refusal in a prefix of a batch is the first refusal of the whole batch.
proof fn lemma_first_incoming_prefix(
    allocated: Option<u64>,
    author: u64,
    records: Seq<OwnedRecord>,
    known: Seq<(u64, u64)>,
    core_hook: bool,
    n: int,
)
    requires
        0 <= n <= records.len(),
        first_incoming_refusal(allocated, author, records.take(n), known, core_hook) is Some,
    ensures
        first_incoming_refusal(allocated, author, records, known, core_hook)
            == first_incoming_refusal(allocated, author, records.take(n), known, core_hook),
        exists|i: int|
            0 <= i < records.len() && #[trigger] incoming_refusal(
                allocated,
                author,
                records[i],
                known,
                core_hook,
            ) is Some,
    decreases records.len() - n,
{
    if n < records.len() {
        assert(records.take(n + 1).drop_last() =~= records.take(n));
        lemma_first_incoming_prefix(allocated, author, records, known, core_hook, n + 1);
    } else {
        assert(records.take(n) =~= records);
        lemma_some_refusal_somewhere(allocated, author, records, known, core_hook);
    }
}

/// A batch with a first refusal holds a refused record.
proof fn lemma_some_refusal_somewhere(
    allocated: Option<u64>,
    author: u64,
    records: Seq<OwnedRecord>,
    known: Seq<(u64, u64)>,
    core_hook: bool,
)
    requires
        first_incoming_refusal(allocated, author, records, known, core_hook) is Some,
    ensures
        exists|i: int|
            0 <= i < records.len() && #[trigger] incoming_refusal(
                allocated,
                author,
                records[i],
                known,
                core_hook,
            ) is Some,
    decreases records.len(),
{
    let rest = records.drop_last();
    if first_incoming_refusal(allocated, author, rest, known, core_hook) is Some {
        lemma_some_refusal_somewhere(allocated, author, rest, known, core_hook);
        let i = choose|i: int|
            0 <= i < rest.len() && #[trigger] incoming_refusal(
                allocated,
                author,
                rest[i],
                known,
                core_hook,
            ) is Some;
        assert(records[i] == rest[i]);
    } else {
        assert(records[records.len() - 1] == records.last());
    }
}

/// A caller-supplied token is refused by an allocated replica.
pub fn check_caller_token(allocated: Option<u64>) -> (r: Result<(), Refusal>)
    ensures
        allocated is Some <==> r == Err::<(), Refusal>(Refusal::CallerSuppliedToken),
        allocated is None <==> r is Ok,
{
    match allocated {
        Some(_) => Err(Refusal::CallerSuppliedToken),
        None => Ok(()),
    }
}

/// The writer count and sequence of an allocated add; the core's allocation
/// rule then gives its token.
pub fn allocated_add_sequence(
    allocated: Option<u64>,
    config_valid: bool,
    author: u64,
    records: &Vec<OwnedRecord>,
    core_hook: bool,
) -> (r: Result<(u64, u64), Refusal>)
    ensures
        allocated is None ==> r == Err::<(u64, u64), Refusal>(Refusal::NoAllocatedIdentity),
        allocated matches Some(w) ==> match write_sequence(
            config_valid,
            w,
            author,
            records@,
            core_hook,
        ) {
            Ok(s) => r == Ok::<(u64, u64), Refusal>((w, s)),
            Err(e) => r == Err::<(u64, u64), Refusal>(e),
        },
{
    let writers = match allocated {
        Some(w) => w,
        None => return Err(Refusal::NoAllocatedIdentity),
    };
    let sequence = checked_write_next(config_valid, writers, author, records, core_hook)?;
    Ok((writers, sequence))
}

/// The token of an allocated add: the one the core's allocation rule gave for
/// its writer count, author and sequence, or a refusal where it gave none.
pub fn take_allocated_token(token: Option<u64>) -> (r: Result<u64, Refusal>)
    ensures
        match token {
            Some(t) => r == Ok::<u64, Refusal>(t),
            None => r == Err::<u64, Refusal>(Refusal::TokenAllocationExhausted),
        },
{
    match token {
        Some(t) => Ok(t),
        None => Err(Refusal::TokenAllocationExhausted),
    }
}

/// An allocated replica removes only while its history leaves room for a write.
pub fn check_remove_observed(
    allocated: Option<u64>,
    config_valid: bool,
    author: u64,
    records: &Vec<OwnedRecord>,
    core_hook: bool,
) -> (r: Result<(), Refusal>)
    ensures
        allocated is None ==> r is Ok,
        allocated matches Some(w) ==> match write_sequence(
            config_valid,
            w,
            author,
            records@,
            core_hook,
        ) {
            Ok(_) => r is Ok,
            Err(e) => r == Err::<(), Refusal>(e),
        },
{
    if let Some(writers) = allocated {
        checked_write_next(config_valid, writers, author, records, core_hook)?;
    }
    Ok(())
}

/// Export an allocated identity: writer count, author, next sequence, then the
/// encoded log (`log`).
pub fn export_identity(
    allocated: Option<u64>,
    config_valid: bool,
    author: u64,
    records: &Vec<OwnedRecord>,
    core_hook: bool,
    log: &[u8],
) -> (r: Result<Vec<u8>, Refusal>)
    ensures
        allocated is None ==> r == Err::<Vec<u8>, Refusal>(Refusal::NoAllocatedIdentity),
        allocated matches Some(w) ==> match next_sequence(
            config_valid,
            w,
            author,
            records@,
            core_hook,
        ) {
            Ok(n) => r matches Ok(b) && b@ == identity_bytes(w, author, n, log@),
            Err(e) => r == Err::<Vec<u8>, Refusal>(e),
        },
{
    let writers = match allocated {
        Some(w) => w,
        None => return Err(Refusal::NoAllocatedIdentity),
    };
    let next = checked_next(config_valid, writers, author, records, core_hook)?;
    Ok(encode_identity(writers, author, next, log))
}

/// Check a restored identity: its history must give the next sequence it stored.
pub fn check_restored_identity(
    config_valid: bool,
    header: &IdentityHeader,
    records: &Vec<OwnedRecord>,
    core_hook: bool,
) -> (r: Result<(), Refusal>)
    ensures
        match next_sequence(config_valid, header.writers, header.author, records@, core_hook) {
            Ok(n) => if n == header.next {
                r is Ok
            } else {
                r == Err::<(), Refusal>(Refusal::NextSequenceMismatch)
            },
            Err(e) => r == Err::<(), Refusal>(e),
        },
{
    let next = checked_next(config_valid, header.writers, header.author, records, core_hook)?;
    if next != header.next {
        return Err(Refusal::NextSequenceMismatch);
    }
    Ok(())
}

/// Every record of a history with no refusal follows the allocation rule.
proof fn lemma_no_refusal_each(writers: u64, records: Seq<OwnedRecord>, core_hook: bool, i: int)
    requires
        first_refusal(writers, records, core_hook) is None,
        0 <= i < records.len(),
    ensures
        owned_refusal(writers, records[i], core_hook) is None,
    decreases records.len(),
{
    if i < records.len() - 1 {
        assert(records.drop_last()[i] == records[i]);
        lemma_no_refusal_each(writers, records.drop_last(), core_hook, i);
    }
}

/// Each local sequence is the sequence of some record of the author.
proof fn lemma_local_from_records(records: Seq<OwnedRecord>, author: u64, j: int)
    requires
        0 <= j < local_sequences(records, author).len(),
    ensures
        exists|i: int|
            0 <= i < records.len() && records[i].replica == author && records[i].sequence
                == local_sequences(records, author)[j],
    decreases records.len(),
{
    let rest = records.drop_last();
    if records.last().replica == author && j == local_sequences(rest, author).len() {
        assert(records[records.len() - 1].sequence == local_sequences(records, author)[j]);
    } else {
        lemma_local_from_records(rest, author, j);
        let i = choose|i: int|
            0 <= i < rest.len() && rest[i].replica == author && rest[i].sequence
                == local_sequences(rest, author)[j];
        assert(records[i] == rest[i]);
    }
}

/// No value of a sequence exceeds its maximum.
proof fn lemma_max_bounds(s: Seq<u64>, j: int)
    requires
        0 <= j < s.len(),
    ensures
        s[j] <= max_of(s),
    decreases s.len(),
{
    if j < s.len() - 1 {
        assert(s.drop_last()[j] == s[j]);
        lemma_max_bounds(s.drop_last(), j);
    }
}

/// The maximum of a sequence of `u64` is a `u64`.
proof fn lemma_max_fits(s: Seq<u64>)
    ensures
        max_of(s) <= u64::MAX,
    decreases s.len(),
{
    if s.len() > 0 {
        lemma_max_fits(s.drop_last());
    }
}

/// The values `1..=m`, as a set of `u64`.
pub open spec fn first_sequences(m: nat) -> Set<u64> {
    Set::new(|s: u64| 1 <= s && s <= m)
}

proof fn lemma_first_sequences_len(m: nat)
    requires
        m <= u64::MAX,
    ensures
        first_sequences(m).finite(),
        first_sequences(m).len() == m,
    decreases m,
{
    if m == 0 {
        assert(first_sequences(m) =~= Set::<u64>::empty());
    } else {
        lemma_first_sequences_len((m - 1) as nat);
        assert(first_sequences(m) =~= first_sequences((m - 1) as nat).insert(m as u64));
    }
}

/// The local history an allocated writer accepts is complete: where its
/// records carry distinct sequences (as an event log's distinct record IDs
/// do) and the history yields a next sequence `n`, the author's sequences are
/// exactly `1, 2, ..., n - 1`.
pub proof fn law_next_sequence_means_complete_history(
    config_valid: bool,
    writers: u64,
    author: u64,
    records: Seq<OwnedRecord>,
    core_hook: bool,
)
    requires
        local_sequences(records, author).no_duplicates(),
        next_sequence(config_valid, writers, author, records, core_hook) is Ok,
    ensures
        local_sequences(records, author).to_set() == first_sequences(
            (next_sequence(config_valid, writers, author, records, core_hook)->Ok_0 - 1) as nat,
        ),
{
    let local = local_sequences(records, author);
    let m = max_of(local);
    lemma_max_fits(local);
    assert(config_valid);
    assert(first_refusal(writers, records, core_hook) is None);
    assert(local.len() == m);
    assert(next_sequence(config_valid, writers, author, records, core_hook)->Ok_0 == m + 1);
    assert forall|x: u64| local.to_set().contains(x) implies first_sequences(m).contains(x) by {
        let j = choose|j: int| 0 <= j < local.len() && local[j] == x;
        lemma_max_bounds(local, j);
        lemma_local_from_records(records, author, j);
        let i = choose|i: int|
            0 <= i < records.len() && records[i].replica == author && records[i].sequence
                == local[j];
        lemma_no_refusal_each(writers, records, core_hook, i);
    }
    local.unique_seq_to_set();
    lemma_first_sequences_len(m);
    vstd::set_lib::lemma_subset_equality(local.to_set(), first_sequences(m));
}

/// No value of a sequence whose values are all at most `b` makes its maximum exceed `b`.
proof fn lemma_max_at_most(s: Seq<u64>, b: nat)
    requires
        forall|j: int| 0 <= j < s.len() ==> s[j] <= b,
    ensures
        max_of(s) <= b,
    decreases s.len(),
{
    if s.len() > 0 {
        assert forall|j: int| 0 <= j < s.drop_last().len() implies s.drop_last()[j] <= b by {
            assert(s.drop_last()[j] == s[j]);
        }
        lemma_max_at_most(s.drop_last(), b);
    }
}

/// A complete local history always yields the next sequence: where every
/// record follows the allocation rule under a valid writer configuration and
/// the author's own sequences are exactly `1, 2, ..., k` (each once), the
/// author writes next at `k + 1`, unless `k` is the last representable sequence.
pub proof fn law_complete_history_gives_next_sequence(
    config_valid: bool,
    writers: u64,
    author: u64,
    records: Seq<OwnedRecord>,
    core_hook: bool,
    k: nat,
)
    requires
        config_valid,
        first_refusal(writers, records, core_hook) is None,
        local_sequences(records, author).no_duplicates(),
        local_sequences(records, author).to_set() == first_sequences(k),
        k < u64::MAX,
    ensures
        next_sequence(config_valid, writers, author, records, core_hook) == Ok::<u64, Refusal>(
            (k + 1) as u64,
        ),
{
    let local = local_sequences(records, author);
    local.unique_seq_to_set();
    lemma_first_sequences_len(k);
    assert(local.len() == k);
    assert forall|j: int| 0 <= j < local.len() implies local[j] <= k by {
        assert(local.to_set().contains(local[j]));
    }
    lemma_max_at_most(local, k);
    if k > 0 {
        assert(first_sequences(k).contains(k as u64));
        assert(local.to_set().contains(k as u64));
        let j = choose|j: int| 0 <= j < local.len() && local[j] == k as u64;
        lemma_max_bounds(local, j);
    }
    assert(max_of(local) == k);
}

/// Appending the write an allocated author is given advances its cursor by
/// one: the history with that record yields the next sequence after it.
pub proof fn law_write_advances_cursor(
    config_valid: bool,
    writers: u64,
    author: u64,
    records: Seq<OwnedRecord>,
    core_hook: bool,
    written: OwnedRecord,
)
    requires
        write_sequence(config_valid, writers, author, records, core_hook) is Ok,
        author < writers,
        written.replica == author,
        written.sequence == write_sequence(
            config_valid,
            writers,
            author,
            records,
            core_hook,
        )->Ok_0,
        written.add_token is Some ==> written.allocated_token == written.add_token,
        core_hook ==> written.core_refusal is None,
    ensures
        next_sequence(config_valid, writers, author, records.push(written), core_hook) == Ok::<
            u64,
            Refusal,
        >((written.sequence + 1) as u64),
{
    let after = records.push(written);
    assert(after.drop_last() =~= records);
    assert(after.last() == written);
    let local = local_sequences(records, author);
    let m = max_of(local);
    assert(config_valid);
    assert(first_refusal(writers, records, core_hook) is None);
    assert(local.len() == m);
    lemma_max_fits(local);
    assert(m < u64::MAX);
    assert(next_sequence(config_valid, writers, author, records, core_hook) == Ok::<u64, Refusal>(
        (m + 1) as u64,
    ));
    assert(written.sequence == m + 1);
    assert(owned_refusal(writers, written, core_hook) is None);
    assert(first_refusal(writers, after, core_hook) is None);
    assert(local_sequences(after, author) == local.push(written.sequence));
    assert(local.push(written.sequence).drop_last() =~= local);
    assert(max_of(local.push(written.sequence)) == written.sequence);
}

} // verus!
