//! Caller-persisted identity storage of an allocated writer: `SMOI`, format
//! version 1, then the writer count, the author and the next sequence as
//! little-endian `u64`s, then the author's complete event log.
//!
//! This is local storage, not a transport encoding; the log suffix is the
//! core's own event-log encoding.
use vstd::prelude::*;
use vstd::bytes::{spec_u64_from_le_bytes, spec_u64_to_le_bytes, u64_from_le_bytes, u64_to_le_bytes};
use vstd::slice::{slice_subrange, slice_to_vec};
use crate::allocation::Refusal;

verus! {

/// The length of the fixed header before the log.
pub const IDENTITY_HEADER_LEN: usize = 29;

/// `"SMOI"` and format version 1.
pub open spec fn identity_magic() -> Seq<u8> {
    seq![0x53u8, 0x4du8, 0x4fu8, 0x49u8, 0x01u8]
}

/// The fixed fields of an identity.
pub struct IdentityHeader {
    pub writers: u64,
    pub author: u64,
    pub next: u64,
}

/// The stored bytes of an identity with these fields and log.
pub open spec fn identity_bytes(writers: u64, author: u64, next: u64, log: Seq<u8>) -> Seq<u8> {
    identity_magic() + spec_u64_to_le_bytes(writers) + spec_u64_to_le_bytes(author)
        + spec_u64_to_le_bytes(next) + log
}

/// The fields stored bytes carry, where they carry an identity.
pub open spec fn identity_fields(bytes: Seq<u8>) -> Option<IdentityHeader> {
    if bytes.len() >= 29 && bytes.take(5) == identity_magic() {
        Some(
            IdentityHeader {
                writers: spec_u64_from_le_bytes(bytes.subrange(5, 13)),
                author: spec_u64_from_le_bytes(bytes.subrange(13, 21)),
                next: spec_u64_from_le_bytes(bytes.subrange(21, 29)),
            },
        )
    } else {
        None
    }
}

/// Store an identity: header fields, then the encoded log.
pub fn encode_identity(writers: u64, author: u64, next: u64, log: &[u8]) -> (bytes: Vec<u8>)
    ensures
        bytes@ == identity_bytes(writers, author, next, log@),
{
    let mut bytes: Vec<u8> = Vec::new();
    bytes.push(0x53u8);
    bytes.push(0x4du8);
    bytes.push(0x4fu8);
    bytes.push(0x49u8);
    bytes.push(0x01u8);
    let mut w = u64_to_le_bytes(writers);
    let mut a = u64_to_le_bytes(author);
    let mut n = u64_to_le_bytes(next);
    let mut l = slice_to_vec(log);
    bytes.append(&mut w);
    bytes.append(&mut a);
    bytes.append(&mut n);
    bytes.append(&mut l);
    assert(bytes@ =~= identity_bytes(writers, author, next, log@));
    bytes
}

/// Read the header of stored identity bytes; the log is everything after
/// [`IDENTITY_HEADER_LEN`] bytes.
pub fn decode_identity(bytes: &[u8]) -> (r: Result<IdentityHeader, Refusal>)
    ensures
        match identity_fields(bytes@) {
            Some(h) => r == Ok::<IdentityHeader, Refusal>(h),
            None => r == Err::<IdentityHeader, Refusal>(Refusal::InvalidIdentityStorage),
        },
{
    if bytes.len() < 29 || bytes[0] != 0x53u8 || bytes[1] != 0x4du8 || bytes[2] != 0x4fu8
        || bytes[3] != 0x49u8 || bytes[4] != 0x01u8 {
        proof {
            if bytes@.len() >= 29 && bytes@.take(5) == identity_magic() {
                assert(bytes@.take(5)[0] == bytes@[0]);
                assert(bytes@.take(5)[1] == bytes@[1]);
                assert(bytes@.take(5)[2] == bytes@[2]);
                assert(bytes@.take(5)[3] == bytes@[3]);
                assert(bytes@.take(5)[4] == bytes@[4]);
            }
        }
        return Err(Refusal::InvalidIdentityStorage);
    }
    assert(bytes@.take(5) =~= identity_magic());
    let writers = u64_from_le_bytes(slice_subrange(bytes, 5, 13));
    let author = u64_from_le_bytes(slice_subrange(bytes, 13, 21));
    let next = u64_from_le_bytes(slice_subrange(bytes, 21, 29));
    Ok(IdentityHeader { writers, author, next })
}

/// Stored identity bytes read back as the fields and log they were stored from.
pub proof fn law_identity_round_trip(writers: u64, author: u64, next: u64, log: Seq<u8>)
    ensures
        identity_fields(identity_bytes(writers, author, next, log)) == Some(
            IdentityHeader { writers, author, next },
        ),
        identity_bytes(writers, author, next, log).subrange(
            29,
            identity_bytes(writers, author, next, log).len() as int,
        ) == log,
{
    vstd::bytes::lemma_auto_spec_u64_to_from_le_bytes();
    let b = identity_bytes(writers, author, next, log);
    assert(b.take(5) =~= identity_magic());
    assert(b.subrange(5, 13) =~= spec_u64_to_le_bytes(writers));
    assert(b.subrange(13, 21) =~= spec_u64_to_le_bytes(author));
    assert(b.subrange(21, 29) =~= spec_u64_to_le_bytes(next));
    assert(b.subrange(29, b.len() as int) =~= log);
}

} // verus!
