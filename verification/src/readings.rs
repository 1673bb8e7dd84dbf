//! Readings of a last-writer-wins register for hosts without an optional
//! type: each reading names the default it falls back to while the register
//! holds no value.
use vstd::prelude::*;

verus! {

/// The register's winning write: its timestamp, writer replica and value.
#[derive(PartialEq, Eq, Structural, Clone, Copy)]
pub struct LwwEntry {
    pub timestamp: u64,
    pub replica: u64,
    pub value: u64,
}

/// Whether the register holds a value.
pub fn has_value(entry: Option<LwwEntry>) -> (b: bool)
    ensures
        b == entry is Some,
{
    entry.is_some()
}

/// The register's value, or `default_value` while it holds none.
pub fn value_or(entry: Option<LwwEntry>, default_value: u64) -> (v: u64)
    ensures
        v == match entry {
            Some(e) => e.value,
            None => default_value,
        },
{
    match entry {
        Some(e) => e.value,
        None => default_value,
    }
}

/// The winning write's timestamp, or `default_value` while there is none.
pub fn timestamp_or(entry: Option<LwwEntry>, default_value: u64) -> (t: u64)
    ensures
        t == match entry {
            Some(e) => e.timestamp,
            None => default_value,
        },
{
    match entry {
        Some(e) => e.timestamp,
        None => default_value,
    }
}

/// The winning write's writer replica, or `default_value` while there is none.
pub fn writer_replica_or(entry: Option<LwwEntry>, default_value: u64) -> (r: u64)
    ensures
        r == match entry {
            Some(e) => e.replica,
            None => default_value,
        },
{
    match entry {
        Some(e) => e.replica,
        None => default_value,
    }
}

} // verus!
