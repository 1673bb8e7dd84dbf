//! A string OR-Set record as the core decodes it, exposed field by field so a
//! consumer can label record bytes without keeping metadata beside them.
use vstd::prelude::*;
use crate::allocation::OwnedRecord;
use crate::wire::{owned, CoreCause};

verus! {

/// The delta of a string OR-Set record.
pub enum OrSetDelta {
    /// Add `element` under `token`.
    Add { element: String, token: u64 },
    /// Tombstone `tokens`.
    Remove { tokens: Vec<u64> },
}

/// A decoded string OR-Set record: its author, sequence and delta.
pub struct StringOrSetRecord {
    pub replica: u64,
    pub sequence: u64,
    pub delta: OrSetDelta,
}

impl StringOrSetRecord {
    /// The record's author.
    pub fn replica(&self) -> (r: u64)
        ensures
            r == self.replica,
    {
        self.replica
    }

    /// The record's sequence.
    pub fn sequence(&self) -> (s: u64)
        ensures
            s == self.sequence,
    {
        self.sequence
    }

    /// `"add"` or `"remove"`.
    pub fn delta_kind(&self) -> (k: String)
        ensures
            self.delta is Add ==> k@ == "add"@,
            self.delta is Remove ==> k@ == "remove"@,
    {
        match &self.delta {
            OrSetDelta::Add { .. } => owned("add"),
            OrSetDelta::Remove { .. } => owned("remove"),
        }
    }

    /// The added element; `None` for a remove.
    pub fn element(&self) -> (e: Option<String>)
        ensures
            match self.delta {
                OrSetDelta::Add { element, .. } => e == Some(element),
                OrSetDelta::Remove { .. } => e is None,
            },
    {
        match &self.delta {
            OrSetDelta::Add { element, .. } => Some(element.clone()),
            OrSetDelta::Remove { .. } => None,
        }
    }

    /// The add's token; `None` for a remove.
    pub fn token(&self) -> (t: Option<u64>)
        ensures
            match self.delta {
                OrSetDelta::Add { token, .. } => t == Some(token),
                OrSetDelta::Remove { .. } => t is None,
            },
    {
        match &self.delta {
            OrSetDelta::Add { token, .. } => Some(*token),
            OrSetDelta::Remove { .. } => None,
        }
    }

    /// The tombstoned tokens of a remove; empty for an add.
    pub fn tokens(&self) -> (ts: Vec<u64>)
        ensures
            match self.delta {
                OrSetDelta::Add { .. } => ts@ == Seq::<u64>::empty(),
                OrSetDelta::Remove { tokens } => ts@ == tokens@,
            },
    {
        match &self.delta {
            OrSetDelta::Add { .. } => Vec::new(),
            OrSetDelta::Remove { tokens } => {
                let mut copy: Vec<u64> = Vec::new();
                let mut k: usize = 0;
                while k < tokens.len()
                    invariant
                        k <= tokens.len(),
                        copy@ =~= tokens@.take(k as int),
                    decreases tokens.len() - k,
                {
                    copy.push(tokens[k]);
                    k = k + 1;
                }
                assert(tokens@.take(k as int) =~= tokens@);
                copy
            },
        }
    }

    /// What the ownership checks read of this record, given the token the
    /// core's allocation rule gives its author and sequence and the core
    /// record hook's refusal, if any.
    pub fn owned_view(&self, allocated_token: Option<u64>, core_refusal: Option<CoreCause>) -> (o:
        OwnedRecord)
        ensures
            o.replica == self.replica,
            o.sequence == self.sequence,
            o.add_token == match self.delta {
                OrSetDelta::Add { token, .. } => Some(token),
                OrSetDelta::Remove { .. } => None::<u64>,
            },
            o.allocated_token == allocated_token,
            o.core_refusal == core_refusal,
    {
        OwnedRecord {
            replica: self.replica,
            sequence: self.sequence,
            add_token: self.token(),
            allocated_token,
            core_refusal,
        }
    }
}

/// One `(element, token)` add pair as the core's OR-Set stores it.
pub struct StringOrSetAddEntry {
    pub element: String,
    pub token: u64,
}

impl StringOrSetAddEntry {
    /// The added element.
    pub fn element(&self) -> (e: String)
        ensures
            e == self.element,
    {
        self.element.clone()
    }

    /// The add's token.
    pub fn token(&self) -> (t: u64)
        ensures
            t == self.token,
    {
        self.token
    }
}

} // verus!
