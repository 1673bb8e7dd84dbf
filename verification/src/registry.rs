//! The live allocated authors of one process or instance: at most one live
//! allocated writer handle per author. A registry fences one process only; it
//! is not cross-process exclusion.
use vstd::prelude::*;
use std::collections::BTreeSet;
use crate::allocation::{check_restored_identity, next_sequence, OwnedRecord, Refusal};
use crate::identity::{identity_bytes, identity_fields, law_identity_round_trip, IdentityHeader};
use crate::ordered::{lemma_u64_keys_ordered, u64_keys_ordered};

verus! {

broadcast use vstd::std_specs::btree::group_btree_axioms;

/// The authors that hold a live allocated writer.
pub struct AuthorRegistry {
    authors: BTreeSet<u64>,
}

impl View for AuthorRegistry {
    type V = Set<u64>;

    closed spec fn view(&self) -> Set<u64> {
        self.authors@
    }
}

/// The outcome of claiming `author` against the live set `held`: the verdict,
/// and the live set after it.
pub open spec fn claim_outcome(held: Set<u64>, config_valid: bool, author: u64) -> (
    Result<(), Refusal>,
    Set<u64>,
) {
    if !config_valid {
        (Err(Refusal::InvalidWriterConfiguration), held)
    } else if held.contains(author) {
        (Err(Refusal::LiveWriterExists), held)
    } else {
        (Ok(()), held.insert(author))
    }
}

impl AuthorRegistry {
    /// A registry with no live author.
    pub fn new() -> (r: Self)
        ensures
            r@ == Set::<u64>::empty(),
    {
        AuthorRegistry { authors: BTreeSet::new() }
    }

    /// Whether `author` holds a live allocated writer.
    pub fn holds(&self, author: u64) -> (b: bool)
        ensures
            b == self@.contains(author),
    {
        proof {
            lemma_u64_keys_ordered();
        }
        self.authors.contains(&author)
    }

    /// Claim `author` for a new allocated writer. `config_valid` is the core's
    /// verdict on the writer configuration, checked before the claim.
    pub fn claim(&mut self, config_valid: bool, author: u64) -> (r: Result<(), Refusal>)
        ensures
            (r, final(self)@) == claim_outcome(old(self)@, config_valid, author),
    {
        proof {
            lemma_u64_keys_ordered();
        }
        if !config_valid {
            return Err(Refusal::InvalidWriterConfiguration);
        }
        if !self.authors.insert(author) {
            return Err(Refusal::LiveWriterExists);
        }
        Ok(())
    }

    /// Release `author` when its allocated writer is dropped.
    pub fn release(&mut self, author: u64)
        ensures
            final(self)@ == old(self)@.remove(author),
    {
        proof {
            lemma_u64_keys_ordered();
        }
        self.authors.remove(&author);
    }
}

/// The verdict on importing a stored identity whose header is `header` and
/// whose log holds `records`: the history must give the stored next sequence,
/// then the author must be free to claim.
pub open spec fn import_verdict(
    held: Set<u64>,
    config_valid: bool,
    header: IdentityHeader,
    records: Seq<OwnedRecord>,
    core_hook: bool,
) -> Result<(), Refusal> {
    match next_sequence(config_valid, header.writers, header.author, records, core_hook) {
        Err(e) => Err(e),
        Ok(n) => if n != header.next {
            Err(Refusal::NextSequenceMismatch)
        } else {
            claim_outcome(held, config_valid, header.author).0
        },
    }
}

/// Import a stored identity into the registry. The author is claimed only
/// after every check has passed, so a refused import leaves no live writer
/// behind and may be retried.
pub fn import_identity(
    registry: &mut AuthorRegistry,
    config_valid: bool,
    header: &IdentityHeader,
    records: &Vec<OwnedRecord>,
    core_hook: bool,
) -> (r: Result<(), Refusal>)
    ensures
        r == import_verdict(old(registry)@, config_valid, *header, records@, core_hook),
        r is Ok ==> final(registry)@ == old(registry)@.insert(header.author),
        r is Err ==> final(registry)@ == old(registry)@,
{
    check_restored_identity(config_valid, header, records, core_hook)?;
    registry.claim(config_valid, header.author)
}

/// At most one live allocated writer per author: once `author` is claimed, a
/// second claim is refused and changes nothing, until a release lets a claim
/// succeed again.
pub proof fn law_one_live_writer_per_author(held: Set<u64>, author: u64)
    requires
        claim_outcome(held, true, author).0 is Ok,
    ensures
        ({
            let after = claim_outcome(held, true, author).1;
            &&& claim_outcome(after, true, author) == (
                Err::<(), Refusal>(Refusal::LiveWriterExists),
                after,
            )
            &&& claim_outcome(after.remove(author), true, author).0 is Ok
        }),
{
}

/// An exported identity restarts its writer: the stored bytes read back as
/// the writer count, author and next sequence they were exported with, and
/// importing them over the same history succeeds wherever the author holds no
/// live writer.
pub proof fn law_export_then_import_restores_the_writer(
    held: Set<u64>,
    config_valid: bool,
    writers: u64,
    author: u64,
    records: Seq<OwnedRecord>,
    core_hook: bool,
    log: Seq<u8>,
)
    requires
        next_sequence(config_valid, writers, author, records, core_hook) is Ok,
        !held.contains(author),
    ensures
        ({
            let next = next_sequence(config_valid, writers, author, records, core_hook)->Ok_0;
            let header = IdentityHeader { writers, author, next };
            &&& identity_fields(identity_bytes(writers, author, next, log)) == Some(header)
            &&& import_verdict(held, config_valid, header, records, core_hook) is Ok
        }),
{
    let next = next_sequence(config_valid, writers, author, records, core_hook)->Ok_0;
    law_identity_round_trip(writers, author, next, log);
}

} // verus!
