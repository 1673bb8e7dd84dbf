//! The managed G-Counter's persisted envelope: `SMNODEGC`, envelope version
//! 1, then the counter's coordinate count, its author, the author's cursor
//! and the store revision as little-endian `u64`s, then the counter's event
//! log. The envelope is local storage, never peer bytes.
use vstd::prelude::*;
use vstd::bytes::{spec_u64_from_le_bytes, spec_u64_to_le_bytes, u64_from_le_bytes, u64_to_le_bytes};
use vstd::slice::{slice_subrange, slice_to_vec};
use crate::managed::{managed_error, ManagedCode, ManagedError};
use crate::wire::{owned, Verdict};

verus! {

/// The length of the fixed header before the log.
pub const ENVELOPE_HEADER_LEN: usize = 41;

/// The largest coordinate count a managed counter accepts.
pub const MAX_MANAGED_WRITERS: u64 = 1_000_000;

/// `"SMNODEGC"` and envelope version 1.
pub open spec fn envelope_magic() -> Seq<u8> {
    seq![0x53u8, 0x4du8, 0x4eu8, 0x4fu8, 0x44u8, 0x45u8, 0x47u8, 0x43u8, 0x01u8]
}

/// The fixed fields of an envelope.
pub struct EnvelopeHeader {
    pub count: u64,
    pub author: u64,
    pub cursor: u64,
    pub revision: u64,
}

/// The bytes of an envelope with these fields and log.
pub open spec fn envelope_bytes(count: u64, author: u64, cursor: u64, revision: u64, log: Seq<
    u8,
>) -> Seq<u8> {
    envelope_magic() + spec_u64_to_le_bytes(count) + spec_u64_to_le_bytes(author)
        + spec_u64_to_le_bytes(cursor) + spec_u64_to_le_bytes(revision) + log
}

/// The fields an envelope carries, where the bytes are one.
pub open spec fn envelope_fields(bytes: Seq<u8>) -> Option<EnvelopeHeader> {
    if bytes.len() >= 41 && bytes.take(9) == envelope_magic() {
        Some(
            EnvelopeHeader {
                count: spec_u64_from_le_bytes(bytes.subrange(9, 17)),
                author: spec_u64_from_le_bytes(bytes.subrange(17, 25)),
                cursor: spec_u64_from_le_bytes(bytes.subrange(25, 33)),
                revision: spec_u64_from_le_bytes(bytes.subrange(33, 41)),
            },
        )
    } else {
        None
    }
}

/// A header a handle opened for `writer` may restore: a coordinate count in
/// `1..=1_000_000`, the writer's own coordinate, and a committed revision.
pub open spec fn header_admissible(h: EnvelopeHeader, writer: u64) -> bool {
    &&& 0 < h.count <= MAX_MANAGED_WRITERS
    &&& h.author == writer
    &&& h.author < h.count
    &&& h.revision != 0
}

/// Write an envelope: header fields, then the counter's encoded log.
pub fn managed_envelope(count: u64, author: u64, cursor: u64, revision: u64, log: &[u8]) -> (bytes:
    Vec<u8>)
    ensures
        bytes@ == envelope_bytes(count, author, cursor, revision, log@),
{
    let mut bytes: Vec<u8> = Vec::new();
    bytes.push(0x53u8);
    bytes.push(0x4du8);
    bytes.push(0x4eu8);
    bytes.push(0x4fu8);
    bytes.push(0x44u8);
    bytes.push(0x45u8);
    bytes.push(0x47u8);
    bytes.push(0x43u8);
    bytes.push(0x01u8);
    let mut c = u64_to_le_bytes(count);
    let mut a = u64_to_le_bytes(author);
    let mut k = u64_to_le_bytes(cursor);
    let mut r = u64_to_le_bytes(revision);
    let mut l = slice_to_vec(log);
    bytes.append(&mut c);
    bytes.append(&mut a);
    bytes.append(&mut k);
    bytes.append(&mut r);
    bytes.append(&mut l);
    assert(bytes@ =~= envelope_bytes(count, author, cursor, revision, log@));
    bytes
}

/// The refusal of every envelope a handle cannot restore.
pub fn corrupt_envelope() -> (e: ManagedError)
    ensures
        e.code == ManagedCode::Corrupt,
        e.message@ == "invalid managed counter envelope or replay"@,
{
    managed_error(ManagedCode::Corrupt, owned("invalid managed counter envelope or replay"))
}

/// Read and check the header of an envelope for a handle opened as `writer`.
/// The counter's log is everything after [`ENVELOPE_HEADER_LEN`] bytes.
pub fn read_envelope(bytes: &[u8], writer: u64) -> (r: Result<EnvelopeHeader, ManagedError>)
    ensures
        match envelope_fields(bytes@) {
            Some(h) => if header_admissible(h, writer) {
                r == Ok::<EnvelopeHeader, ManagedError>(h)
            } else {
                r matches Err(e) && e.code == ManagedCode::Corrupt
            },
            None => r matches Err(e) && e.code == ManagedCode::Corrupt,
        },
        r matches Err(e) ==> e.message@ == "invalid managed counter envelope or replay"@,
{
    if bytes.len() < 41 || bytes[0] != 0x53u8 || bytes[1] != 0x4du8 || bytes[2] != 0x4eu8
        || bytes[3] != 0x4fu8 || bytes[4] != 0x44u8 || bytes[5] != 0x45u8 || bytes[6] != 0x47u8
        || bytes[7] != 0x43u8 || bytes[8] != 0x01u8 {
        proof {
            if bytes@.len() >= 41 && bytes@.take(9) == envelope_magic() {
                assert(bytes@.take(9)[0] == bytes@[0]);
                assert(bytes@.take(9)[1] == bytes@[1]);
                assert(bytes@.take(9)[2] == bytes@[2]);
                assert(bytes@.take(9)[3] == bytes@[3]);
                assert(bytes@.take(9)[4] == bytes@[4]);
                assert(bytes@.take(9)[5] == bytes@[5]);
                assert(bytes@.take(9)[6] == bytes@[6]);
                assert(bytes@.take(9)[7] == bytes@[7]);
                assert(bytes@.take(9)[8] == bytes@[8]);
            }
        }
        return Err(corrupt_envelope());
    }
    assert(bytes@.take(9) =~= envelope_magic());
    let count = u64_from_le_bytes(slice_subrange(bytes, 9, 17));
    let author = u64_from_le_bytes(slice_subrange(bytes, 17, 25));
    let cursor = u64_from_le_bytes(slice_subrange(bytes, 25, 33));
    let revision = u64_from_le_bytes(slice_subrange(bytes, 33, 41));
    if count == 0 || count > MAX_MANAGED_WRITERS || author != writer || author >= count
        || revision == 0 {
        return Err(corrupt_envelope());
    }
    Ok(EnvelopeHeader { count, author, cursor, revision })
}

/// A replayed envelope is accepted when every record of its log was accepted
/// afresh, the author's cursor is the one stored, and the restored counter
/// writes the very same envelope back (which refuses omitted history and
/// trailing or alternate encodings).
pub fn check_replay(
    verdicts: &Vec<Verdict>,
    replayed_cursor: u64,
    header: &EnvelopeHeader,
    rewritten: &Vec<u8>,
    bytes: &[u8],
) -> (r: Result<(), ManagedError>)
    ensures
        r is Ok <==> (forall|i: int| 0 <= i < verdicts.len() ==> verdicts@[i] == Verdict::Accepted)
            && replayed_cursor == header.cursor && rewritten@ == bytes@,
        r matches Err(e) ==> e.code == ManagedCode::Corrupt && e.message@
            == "invalid managed counter envelope or replay"@,
{
    let mut k: usize = 0;
    while k < verdicts.len()
        invariant
            k <= verdicts.len(),
            forall|i: int| 0 <= i < k ==> verdicts@[i] == Verdict::Accepted,
        decreases verdicts.len() - k,
    {
        if verdicts[k] != Verdict::Accepted {
            return Err(corrupt_envelope());
        }
        k = k + 1;
    }
    if replayed_cursor != header.cursor {
        return Err(corrupt_envelope());
    }
    if rewritten.len() != bytes.len() {
        return Err(corrupt_envelope());
    }
    let mut j: usize = 0;
    while j < bytes.len()
        invariant
            j <= bytes.len(),
            rewritten.len() == bytes.len(),
            forall|i: int| 0 <= i < j ==> rewritten@[i] == bytes@[i],
        decreases bytes.len() - j,
    {
        if rewritten[j] != bytes[j] {
            return Err(corrupt_envelope());
        }
        j = j + 1;
    }
    assert(rewritten@ =~= bytes@);
    Ok(())
}

/// An envelope reads back as the fields and log it was written from.
pub proof fn law_envelope_round_trip(
    count: u64,
    author: u64,
    cursor: u64,
    revision: u64,
    log: Seq<u8>,
)
    ensures
        envelope_fields(envelope_bytes(count, author, cursor, revision, log)) == Some(
            EnvelopeHeader { count, author, cursor, revision },
        ),
        envelope_bytes(count, author, cursor, revision, log).subrange(
            41,
            envelope_bytes(count, author, cursor, revision, log).len() as int,
        ) == log,
{
    vstd::bytes::lemma_auto_spec_u64_to_from_le_bytes();
    let b = envelope_bytes(count, author, cursor, revision, log);
    assert(b.take(9) =~= envelope_magic());
    assert(b.subrange(9, 17) =~= spec_u64_to_le_bytes(count));
    assert(b.subrange(17, 25) =~= spec_u64_to_le_bytes(author));
    assert(b.subrange(25, 33) =~= spec_u64_to_le_bytes(cursor));
    assert(b.subrange(33, 41) =~= spec_u64_to_le_bytes(revision));
    assert(b.subrange(41, b.len() as int) =~= log);
}

} // verus!
