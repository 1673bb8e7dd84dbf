//! The ordering facts that std's ordered sets of integers rest on.
use vstd::prelude::*;

verus! {

/// `u64` keys order as integers do, so std's ordered sets of `u64` behave as
/// mathematical sets.
pub open spec fn u64_keys_ordered() -> bool {
    vstd::laws_cmp::obeys_cmp::<u64>()
}

/// `u64` is totally ordered as the integers are.
pub proof fn lemma_u64_keys_ordered()
    ensures
        u64_keys_ordered(),
{
    broadcast use vstd::laws_cmp::group_laws_cmp;
}

} // verus!
