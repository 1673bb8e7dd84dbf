//! The managed G-Counter handle: a counter that owns a synchronous store
//! lease, commits a new envelope revision for every change, and stops
//! writing after a failed commit or a close.
//!
//! The store callbacks are JavaScript; the decisions around them are here: which
//! operations a handle admits, which revision a change commits, what a
//! commit's outcome does to the handle, and what a merge publishes.
use vstd::prelude::*;
use crate::wire::{owned, Verdict};

verus! {

/// The error codes of a managed store.
#[derive(PartialEq, Eq, Structural, Clone, Copy)]
pub enum ManagedCode {
    Missing,
    Corrupt,
    Stale,
    Exists,
    Locked,
    Commit,
    Disabled,
    Reentry,
    Closed,
    Collision,
}

/// A managed-store failure as JavaScript receives it: a `SafeMeshStoreError`
/// with `code` and `message`.
pub struct ManagedError {
    pub code: ManagedCode,
    pub message: String,
}

/// A managed-store failure.
pub fn managed_error(code: ManagedCode, message: String) -> (e: ManagedError)
    ensures
        e.code == code,
        e.message@ == message@,
{
    ManagedError { code, message }
}

/// The refusal of a call made from inside a store callback, before it
/// touches the handle.
pub fn reentry_error() -> (e: ManagedError)
    ensures
        e.code == ManagedCode::Reentry,
        e.message@ == "Store callback reentry"@,
{
    managed_error(ManagedCode::Reentry, owned("Store callback reentry"))
}

/// The name JavaScript reads in `error.code`.
pub open spec fn code_text(code: ManagedCode) -> Seq<char> {
    match code {
        ManagedCode::Missing => "MISSING"@,
        ManagedCode::Corrupt => "CORRUPT"@,
        ManagedCode::Stale => "STALE"@,
        ManagedCode::Exists => "EXISTS"@,
        ManagedCode::Locked => "LOCKED"@,
        ManagedCode::Commit => "COMMIT"@,
        ManagedCode::Disabled => "DISABLED"@,
        ManagedCode::Reentry => "REENTRY"@,
        ManagedCode::Closed => "CLOSED"@,
        ManagedCode::Collision => "COLLISION"@,
    }
}

/// The name JavaScript reads in `error.code`.
pub fn code_name(code: ManagedCode) -> (s: String)
    ensures
        s@ == code_text(code),
{
    match code {
        ManagedCode::Missing => owned("MISSING"),
        ManagedCode::Corrupt => owned("CORRUPT"),
        ManagedCode::Stale => owned("STALE"),
        ManagedCode::Exists => owned("EXISTS"),
        ManagedCode::Locked => owned("LOCKED"),
        ManagedCode::Commit => owned("COMMIT"),
        ManagedCode::Disabled => owned("DISABLED"),
        ManagedCode::Reentry => owned("REENTRY"),
        ManagedCode::Closed => owned("CLOSED"),
        ManagedCode::Collision => owned("COLLISION"),
    }
}

/// The handle's bookkeeping beside its counter: the committed revision, and
/// whether it is closed or has stopped writing.
#[derive(PartialEq, Eq, Structural, Clone, Copy)]
pub struct ManagedState {
    pub revision: u64,
    pub closed: bool,
    pub disabled: bool,
}

/// Why an operation is refused before it touches the counter, if it is: a
/// closed handle admits nothing, a disabled one admits no write.
pub open spec fn access_refusal(s: ManagedState, write: bool) -> Option<ManagedCode> {
    if s.closed {
        Some(ManagedCode::Closed)
    } else if write && s.disabled {
        Some(ManagedCode::Disabled)
    } else {
        None
    }
}

/// The handle after a commit of the next revision: on success it holds that
/// revision; on failure it stops writing.
pub open spec fn after_commit(s: ManagedState, committed: bool) -> ManagedState {
    if committed {
        ManagedState { revision: (s.revision + 1) as u64, ..s }
    } else {
        ManagedState { disabled: true, ..s }
    }
}

/// The handle after a close that did (`released`) or did not complete. Even a
/// close that throws leaves the handle with no write authority.
pub open spec fn after_close(s: ManagedState, released: bool) -> ManagedState {
    if s.closed {
        s
    } else {
        ManagedState { disabled: true, closed: released, ..s }
    }
}

impl ManagedState {
    /// A handle just opened at `revision`.
    pub fn opened(revision: u64) -> (s: Self)
        ensures
            s == (ManagedState { revision, closed: false, disabled: false }),
    {
        ManagedState { revision, closed: false, disabled: false }
    }

    /// Admit a read (`write == false`) or a write.
    pub fn check_access(&self, write: bool) -> (r: Result<(), ManagedError>)
        ensures
            match access_refusal(*self, write) {
                None => r is Ok,
                Some(code) => r matches Err(e) && e.code == code,
            },
            r matches Err(e) ==> (e.code == ManagedCode::Closed ==> e.message@
                == "managed handle is closed"@),
            r matches Err(e) ==> (e.code == ManagedCode::Disabled ==> e.message@
                == "close and restart after failed commit"@),
    {
        if self.closed {
            return Err(managed_error(ManagedCode::Closed, owned("managed handle is closed")));
        }
        if write && self.disabled {
            return Err(
                managed_error(ManagedCode::Disabled, owned("close and restart after failed commit")),
            );
        }
        Ok(())
    }

    /// The revision a change commits: the next one, unless revisions are exhausted.
    pub fn next_revision(&self) -> (r: Result<u64, ManagedError>)
        ensures
            self.revision < u64::MAX ==> r == Ok::<u64, ManagedError>((self.revision + 1) as u64),
            self.revision == u64::MAX ==> (r matches Err(e) && e.code == ManagedCode::Commit
                && e.message@ == "revision exhausted"@),
    {
        if self.revision == u64::MAX {
            return Err(managed_error(ManagedCode::Commit, owned("revision exhausted")));
        }
        Ok(self.revision + 1)
    }

    /// Record the outcome of committing the next revision.
    pub fn settle_commit(&mut self, committed: bool)
        requires
            old(self).revision < u64::MAX,
        ensures
            *final(self) == after_commit(*old(self), committed),
    {
        if committed {
            self.revision = self.revision + 1;
        } else {
            self.disabled = true;
        }
    }

    /// Begin a close: whether the store's close must be called. A handle that
    /// begins closing holds no write authority from then on.
    pub fn begin_close(&mut self) -> (call_close: bool)
        ensures
            call_close == !old(self).closed,
            call_close ==> *final(self) == (ManagedState { disabled: true, ..*old(self) }),
            !call_close ==> *final(self) == *old(self),
    {
        if self.closed {
            return false;
        }
        self.disabled = true;
        true
    }

    /// The store released the lease.
    pub fn finish_close(&mut self)
        ensures
            *final(self) == (ManagedState { closed: true, ..*old(self) }),
    {
        self.closed = true;
    }
}

/// How a handle that holds a fresh lease sets its counter up.
pub enum OpenSetup {
    /// Commit the fresh counter's envelope at `revision`, expecting the
    /// store to hold `expected`.
    CommitFresh { expected: u64, revision: u64 },
    /// Read the committed snapshot and restore the counter from it.
    RestoreCommitted,
}

/// The setup of an open: a fresh handle (one given a coordinate count)
/// commits revision 1 against an empty store (revision 0); a restart
/// restores what is committed.
pub fn open_setup(writers: Option<u32>) -> (s: OpenSetup)
    ensures
        writers is Some ==> s == (OpenSetup::CommitFresh { expected: 0, revision: 1 }),
        writers is None ==> s == OpenSetup::RestoreCommitted,
{
    match writers {
        Some(_) => OpenSetup::CommitFresh { expected: 0, revision: 1 },
        None => OpenSetup::RestoreCommitted,
    }
}

/// How an open ends once its lease is held.
pub enum OpenEnd {
    /// The handle opens at the committed revision.
    Opened(ManagedState),
    /// The setup failed: the lease is closed, once, and the failure reported.
    CloseLease,
}

/// The end of an open: a setup that committed or restored `revision` opens
/// the handle there; a setup that failed closes the lease.
pub fn open_end(committed: Option<u64>) -> (e: OpenEnd)
    ensures
        committed matches Some(r) ==> e == OpenEnd::Opened(
            ManagedState { revision: r, closed: false, disabled: false },
        ),
        committed is None ==> e == OpenEnd::CloseLease,
{
    match committed {
        Some(r) => OpenEnd::Opened(ManagedState::opened(r)),
        None => OpenEnd::CloseLease,
    }
}

/// What a single-record merge publishes: an accepted record commits a new
/// revision, a duplicate changes nothing, anything else is a collision.
pub fn record_merge_plan(verdict: Verdict) -> (r: Result<bool, ManagedError>)
    ensures
        verdict == Verdict::Accepted ==> r == Ok::<bool, ManagedError>(true),
        verdict == Verdict::Duplicate ==> r == Ok::<bool, ManagedError>(false),
        verdict != Verdict::Accepted && verdict != Verdict::Duplicate ==> (r matches Err(e)
            && e.code == ManagedCode::Collision && e.message@ == "peer record collision"@),
{
    match verdict {
        Verdict::Accepted => Ok(true),
        Verdict::Duplicate => Ok(false),
        _ => Err(managed_error(ManagedCode::Collision, owned("peer record collision"))),
    }
}

/// What a batch merge publishes: a collision anywhere refuses the batch;
/// otherwise a new revision is committed when any record was accepted.
pub fn log_merge_plan(verdicts: &Vec<Verdict>) -> (r: Result<bool, ManagedError>)
    ensures
        (exists|i: int| 0 <= i < verdicts.len() && verdicts@[i] == Verdict::Collision) ==> (r matches Err(
            e,
        ) && e.code == ManagedCode::Collision && e.message@ == "peer batch collision"@),
        !(exists|i: int| 0 <= i < verdicts.len() && verdicts@[i] == Verdict::Collision) ==> r
            == Ok::<bool, ManagedError>(
            exists|i: int| 0 <= i < verdicts.len() && verdicts@[i] == Verdict::Accepted,
        ),
{
    let mut accepted = false;
    let mut k: usize = 0;
    while k < verdicts.len()
        invariant
            k <= verdicts.len(),
            forall|i: int| 0 <= i < k ==> verdicts@[i] != Verdict::Collision,
            accepted == exists|i: int| 0 <= i < k && verdicts@[i] == Verdict::Accepted,
        decreases verdicts.len() - k,
    {
        if verdicts[k] == Verdict::Collision {
            return Err(managed_error(ManagedCode::Collision, owned("peer batch collision")));
        }
        if verdicts[k] == Verdict::Accepted {
            accepted = true;
        }
        k = k + 1;
    }
    Ok(accepted)
}

/// A fresh handle for `writer` must own a coordinate of the counter it creates.
pub fn check_open_writer(writer: u64, writers: Option<u32>) -> (r: Result<(), ManagedError>)
    ensures
        r is Err <==> (writers matches Some(n) && writer >= n),
        r matches Err(e) ==> e.code == ManagedCode::Corrupt && e.message@
            == "writer outside committed count"@,
{
    if let Some(n) = writers {
        if writer >= n as u64 {
            return Err(managed_error(ManagedCode::Corrupt, owned("writer outside committed count")));
        }
    }
    Ok(())
}

/// The value of an ASCII hexadecimal digit.
pub open spec fn hex_digit(c: u8) -> Option<u8> {
    if 0x30 <= c <= 0x39 {
        Some((c - 0x30) as u8)
    } else if 0x61 <= c <= 0x66 {
        Some((c - 0x61 + 10) as u8)
    } else if 0x41 <= c <= 0x46 {
        Some((c - 0x41 + 10) as u8)
    } else {
        None
    }
}

/// The byte a two-character hexadecimal pair denotes, read as an unsigned
/// radix-16 number: two digits, or a `+` sign and one digit.
pub open spec fn hex_pair(a: u8, b: u8) -> Option<u8> {
    if a == 0x2b {
        hex_digit(b)
    } else {
        match (hex_digit(a), hex_digit(b)) {
            (Some(x), Some(y)) => Some((16 * x + y) as u8),
            _ => None,
        }
    }
}

/// The byte of the `i`-th character pair of `text`.
pub open spec fn pair_at(text: Seq<u8>, i: int) -> Option<u8> {
    hex_pair(text[2 * i], text[2 * i + 1])
}

fn hex_digit_value(c: u8) -> (r: Option<u8>)
    ensures
        r == hex_digit(c),
{
    if 0x30 <= c && c <= 0x39 {
        Some(c - 0x30)
    } else if 0x61 <= c && c <= 0x66 {
        Some(c - 0x61 + 10)
    } else if 0x41 <= c && c <= 0x46 {
        Some(c - 0x41 + 10)
    } else {
        None
    }
}

/// A byte pair that is neither two ASCII characters nor one whole two-byte
/// UTF-8 character: its text cannot be read as a string of its own.
pub open spec fn splits_a_character(a: u8, b: u8) -> bool {
    !(a < 0x80 && b < 0x80) && !(0xc2 <= a <= 0xdf && 0x80 <= b <= 0xbf)
}

/// Every pair of `text` read before the first pair that is not a byte can be
/// read as a string of its own.
pub open spec fn readable_pairs(text: Seq<u8>) -> bool {
    forall|i: int|
        0 <= i < text.len() / 2 && (forall|j: int| 0 <= j < i ==> #[trigger] pair_at(text, j) is Some)
            ==> !splits_a_character(#[trigger] text[2 * i], text[2 * i + 1])
}

/// The lowercase hexadecimal character of a digit value `d < 16`, as a
/// store's snapshot text writes it.
pub open spec fn lower_hex(d: int) -> u8 {
    if d < 10 { (0x30 + d) as u8 } else { (0x61 + d - 10) as u8 }
}

/// The uppercase hexadecimal character of a digit value `d < 16`.
pub open spec fn upper_hex(d: int) -> u8 {
    if d < 10 { (0x30 + d) as u8 } else { (0x41 + d - 10) as u8 }
}

/// Every byte written as two hexadecimal digits, high digit first, in lower
/// or upper case, reads back as that byte; so does its low digit after `+`.
pub proof fn law_hex_pairs_read_back(b: u8)
    ensures
        hex_pair(lower_hex(b as int / 16), lower_hex(b as int % 16)) == Some(b),
        hex_pair(upper_hex(b as int / 16), upper_hex(b as int % 16)) == Some(b),
        hex_pair(lower_hex(b as int / 16), upper_hex(b as int % 16)) == Some(b),
        b < 16 ==> hex_pair(0x2bu8, lower_hex(b as int)) == Some(b),
{
    let hi: int = b as int / 16;
    let lo: int = b as int % 16;
    assert(0 <= hi < 16 && 0 <= lo < 16);
    assert(16 * hi + lo == b);
    assert(hex_digit(lower_hex(hi)) == Some(hi as u8));
    assert(hex_digit(lower_hex(lo)) == Some(lo as u8));
    assert(hex_digit(upper_hex(hi)) == Some(hi as u8));
    assert(hex_digit(upper_hex(lo)) == Some(lo as u8));
}

/// Decode the store's committed snapshot, read as hexadecimal text: each
/// whole pair of characters is one byte (a trailing odd character is not a
/// pair). Any pair that is not a byte refuses the snapshot; reading stops at
/// the first such pair.
pub fn decode_snapshot_hex(text: &[u8]) -> (r: Result<Vec<u8>, ManagedError>)
    requires
        readable_pairs(text@),
    ensures
        r is Ok <==> forall|i: int| 0 <= i < text.len() / 2 ==> #[trigger] pair_at(text@, i) is Some,
        r matches Ok(bytes) ==> bytes.len() == text.len() / 2 && forall|i: int|
            0 <= i < bytes.len() ==> Some(bytes@[i]) == #[trigger] pair_at(text@, i),
        r matches Err(e) ==> e.code == ManagedCode::Corrupt && e.message@
            == "invalid snapshot bytes"@,
{
    let n = text.len() / 2;
    let mut bytes: Vec<u8> = Vec::new();
    let mut k: usize = 0;
    while k < n
        invariant
            n == text.len() / 2,
            k <= n,
            bytes.len() == k,
            forall|i: int| 0 <= i < k ==> #[trigger] pair_at(text@, i) == Some(bytes@[i]),
        decreases n - k,
    {
        let a = text[2 * k];
        let b = text[2 * k + 1];
        let value = if a == 0x2b {
            hex_digit_value(b)
        } else {
            match (hex_digit_value(a), hex_digit_value(b)) {
                (Some(x), Some(y)) => Some(16 * x + y),
                _ => None,
            }
        };
        match value {
            Some(v) => bytes.push(v),
            None => {
                assert(pair_at(text@, k as int) is None);
                return Err(managed_error(ManagedCode::Corrupt, owned("invalid snapshot bytes")));
            },
        }
        k = k + 1;
    }
    Ok(bytes)
}

/// What a handle meets over its life: an operation that publishes no
/// revision, a publish whose commit did or did not succeed, and a close whose
/// store call did or did not release the lease.
pub enum ManagedEvent {
    Read,
    Publish { committed: bool },
    Close { released: bool },
}

/// The handle after one event, as its operations change it: a publish is
/// admitted only as a write and only while revisions remain.
pub open spec fn step(s: ManagedState, e: ManagedEvent) -> ManagedState {
    match e {
        ManagedEvent::Read => s,
        ManagedEvent::Publish { committed } => if access_refusal(s, true) is Some || s.revision
            == u64::MAX {
            s
        } else {
            after_commit(s, committed)
        },
        ManagedEvent::Close { released } => after_close(s, released),
    }
}

/// The handle after a run of events.
pub open spec fn run(s: ManagedState, events: Seq<ManagedEvent>) -> ManagedState
    decreases events.len(),
{
    if events.len() == 0 {
        s
    } else {
        step(run(s, events.drop_last()), events.last())
    }
}

/// A closed handle never changes again: every later operation is refused.
pub proof fn law_closed_handle_is_final(s: ManagedState, events: Seq<ManagedEvent>)
    requires
        s.closed,
    ensures
        run(s, events) == s,
        forall|write: bool| access_refusal(run(s, events), write) == Some(ManagedCode::Closed),
    decreases events.len(),
{
    if events.len() > 0 {
        law_closed_handle_is_final(s, events.drop_last());
    }
}

/// A handle that stopped writing never writes again: it stays disabled and
/// its committed revision stays where it was.
pub proof fn law_disabled_handle_writes_nothing(s: ManagedState, events: Seq<ManagedEvent>)
    requires
        s.disabled,
    ensures
        run(s, events).disabled,
        run(s, events).revision == s.revision,
    decreases events.len(),
{
    if events.len() > 0 {
        law_disabled_handle_writes_nothing(s, events.drop_last());
    }
}

/// Revisions only move forward, one committed revision at a time.
pub proof fn law_revisions_advance_one_at_a_time(s: ManagedState, events: Seq<ManagedEvent>)
    ensures
        run(s, events).revision >= s.revision,
        run(s, events).revision <= s.revision + events.len(),
    decreases events.len(),
{
    if events.len() > 0 {
        law_revisions_advance_one_at_a_time(s, events.drop_last());
    }
}

} // verus!
