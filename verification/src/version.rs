//! Record listings and version vectors as flat `(author, value)` pairs: a
//! record listing is `[author, sequence, ...]`, a version `[author, prefix, ...]`.
use vstd::prelude::*;
use std::collections::BTreeSet;
use crate::ordered::{lemma_u64_keys_ordered, u64_keys_ordered};
use crate::text::{decimal, decimal_text};
use crate::wasm::{binding_error, BindingError};
use crate::wire::joined;

verus! {

/// Pairs laid out flat, first component first.
pub open spec fn flat_pairs(p: Seq<(u64, u64)>) -> Seq<u64> {
    Seq::new(2 * p.len(), |i: int| if i % 2 == 0 { p[i / 2].0 } else { p[i / 2].1 })
}

/// A flat sequence read back as pairs (a trailing odd value is not a pair).
pub open spec fn pairs_of(s: Seq<u64>) -> Seq<(u64, u64)> {
    Seq::new(s.len() / 2, |i: int| (s[2 * i], s[2 * i + 1]))
}

/// No author occurs twice among the first `n` pairs.
pub open spec fn distinct_authors(p: Seq<(u64, u64)>, n: int) -> bool {
    forall|i: int, j: int| 0 <= i < j < n ==> p[i].0 != p[j].0
}

/// The pair at index `j` repeats an author that an earlier pair holds, and it
/// is the first pair to do so.
pub open spec fn first_repeat_at(p: Seq<(u64, u64)>, j: int) -> bool {
    &&& 0 <= j < p.len()
    &&& distinct_authors(p, j)
    &&& exists|i: int| 0 <= i < j && p[i].0 == p[j].0
}

/// Flatten `(author, value)` pairs in order: every record ID of a log as
/// `[author, sequence, ...]`.
pub fn record_id_pairs(ids: &Vec<(u64, u64)>) -> (flat: Vec<u64>)
    requires
        2 * ids.len() <= usize::MAX,
    ensures
        flat@ == flat_pairs(ids@),
{
    let mut flat: Vec<u64> = Vec::new();
    let mut k: usize = 0;
    while k < ids.len()
        invariant
            k <= ids.len(),
            2 * ids.len() <= usize::MAX,
            flat@ =~= flat_pairs(ids@.take(k as int)),
        decreases ids.len() - k,
    {
        let (a, b) = ids[k];
        flat.push(a);
        flat.push(b);
        k = k + 1;
        assert(flat@ =~= flat_pairs(ids@.take(k as int)));
    }
    assert(ids@.take(k as int) =~= ids@);
    flat
}

/// Flatten a version's `(author, prefix)` entries, which the core lists sorted
/// by author with zero prefixes left out: a peer's since-batch input.
pub fn version_pairs(entries: &Vec<(u64, u64)>) -> (flat: Vec<u64>)
    requires
        2 * entries.len() <= usize::MAX,
    ensures
        flat@ == flat_pairs(entries@),
{
    record_id_pairs(entries)
}

fn odd_pairs_error(len: usize) -> (e: BindingError)
    ensures
        e.code == 2,
        e.message@ == "peerVersion must hold (author, prefix) pairs; got "@ + decimal(len as nat)
            + " values"@,
{
    let digits = decimal_text(len as u128);
    let message = joined("peerVersion must hold (author, prefix) pairs; got ", digits.as_str())
        .concat(" values");
    binding_error(2, message)
}

fn repeated_author_error(author: u64) -> (e: BindingError)
    ensures
        e.code == 2,
        e.message@ == "peerVersion repeats author "@ + decimal(author as nat),
{
    let digits = decimal_text(author as u128);
    binding_error(2, joined("peerVersion repeats author ", digits.as_str()))
}

/// Read a peer version from flat `[author, prefix, ...]` pairs, refusing an
/// odd count and a repeated author by name. The entries come back in input
/// order; the core's checked constructor then builds the version from them.
pub fn peer_version(pairs: &Vec<u64>) -> (r: Result<Vec<(u64, u64)>, BindingError>)
    ensures
        pairs.len() % 2 == 1 ==> (r matches Err(e) && e.code == 2 && e.message@
            == "peerVersion must hold (author, prefix) pairs; got "@ + decimal(pairs.len() as nat)
            + " values"@),
        pairs.len() % 2 == 0 ==> (r is Ok <==> distinct_authors(
            pairs_of(pairs@),
            (pairs.len() / 2) as int,
        )),
        r matches Ok(v) ==> v@ == pairs_of(pairs@),
        pairs.len() % 2 == 0 && r is Err ==> exists|j: int|
            #![trigger pairs_of(pairs@)[j]]
            first_repeat_at(pairs_of(pairs@), j) && (r matches Err(e) && e.code == 2 && e.message@
                == "peerVersion repeats author "@ + decimal(pairs_of(pairs@)[j].0 as nat)),
{
    if pairs.len() % 2 == 1 {
        return Err(odd_pairs_error(pairs.len()));
    }
    let ghost p = pairs_of(pairs@);
    let n = pairs.len() / 2;
    let mut seen: BTreeSet<u64> = BTreeSet::new();
    let mut entries: Vec<(u64, u64)> = Vec::new();
    let mut j: usize = 0;
    proof {
        lemma_u64_keys_ordered();
    }
    while j < n
        invariant
            n == pairs.len() / 2,
            pairs.len() % 2 == 0,
            p == pairs_of(pairs@),
            j <= n,
            u64_keys_ordered(),
            distinct_authors(p, j as int),
            entries@ =~= p.take(j as int),
            forall|a: u64| seen@.contains(a) <==> exists|i: int| 0 <= i < j && p[i].0 == a,
        decreases n - j,
    {
        let author = pairs[2 * j];
        let prefix = pairs[2 * j + 1];
        assert(p[j as int] == (author, prefix));
        if !seen.insert(author) {
            assert(first_repeat_at(p, j as int));
            return Err(repeated_author_error(author));
        }
        entries.push((author, prefix));
        j = j + 1;
        assert(entries@ =~= p.take(j as int));
    }
    assert(p.take(j as int) =~= p);
    Ok(entries)
}

/// Refuse a peer version the core's checked constructor refused, naming the
/// core's cause after `peerVersion: `.
pub fn peer_version_refusal(cause: &str) -> (e: BindingError)
    ensures
        e.code == 2,
        e.message@ == "peerVersion: "@ + cause@,
{
    binding_error(2, joined("peerVersion: ", cause))
}

/// A listing read back as pairs is the listing: whatever `version_pairs`
/// lists, `peer_version` reads back as the same entries, refusing it only
/// where an author repeats.
pub proof fn law_version_pairs_read_back(entries: Seq<(u64, u64)>)
    ensures
        flat_pairs(entries).len() % 2 == 0,
        pairs_of(flat_pairs(entries)) == entries,
{
    let f = flat_pairs(entries);
    assert(f.len() / 2 == entries.len());
    assert forall|i: int| 0 <= i < entries.len() implies #[trigger] pairs_of(f)[i] == entries[i] by {
        assert((2 * i) % 2 == 0);
        assert((2 * i) / 2 == i);
        assert((2 * i + 1) % 2 == 1);
        assert((2 * i + 1) / 2 == i);
    }
    assert(pairs_of(f) =~= entries);
}

} // verus!
