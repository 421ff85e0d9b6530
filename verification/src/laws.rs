//! Laws of the slot map, stated over its view.
//!
//! `store` ensures that the new view is the old view with the key's content
//! inserted, and `retrieve` ensures that the new view is the old view with
//! the key removed and that the returned content is what the old view held.
//! The laws below relate states connected in exactly that way, so each
//! applies to every store or retrieve step of every slot map.

use vstd::prelude::*;
use crate::artifact::ArtifactContent;
use crate::slot_map::SlotMap;

verus! {

/// Uniqueness: after any store of key `k` (`pre` to `post` as store's
/// contract relates them), `post` holds `k`, so a second store of `k` —
/// whose precondition demands that `k` be absent — is ruled out until a
/// retrieve removes the entry again.
pub proof fn lemma_duplicate_store_ruled_out(
    pre: SlotMap,
    post: SlotMap,
    k: u64,
    c: ArtifactContent,
)
    requires
        post@ == pre@.insert(k, c),
    ensures
        post@.contains_key(k),
{
}

/// Single consumption: after any retrieve of key `k` (`pre` to `post` as
/// retrieve's contract relates them), `post` no longer holds `k`, so an
/// immediate second retrieve of `k` — whose precondition demands that `k` be
/// present — is ruled out.
pub proof fn lemma_second_retrieve_ruled_out(pre: SlotMap, post: SlotMap, k: u64)
    requires
        pre@.contains_key(k),
        post@ == pre@.remove(k),
    ensures
        !post@.contains_key(k),
{
}

/// Round trip: a retrieve of key `k` immediately following a store of
/// content `c` under `k` (`pre` to `stored` as store's contract relates
/// them) returns exactly `c` and leaves the slot map as it was before the
/// store.
pub proof fn lemma_round_trip(pre: SlotMap, stored: SlotMap, k: u64, c: ArtifactContent)
    requires
        !pre@.contains_key(k),
        stored@ == pre@.insert(k, c),
    ensures
        stored@.contains_key(k),
        stored@[k] == c,
        stored@.remove(k) == pre@,
{
    assert(stored@.remove(k) =~= pre@);
}

/// Absence: a slot map holding no entry for `k` — one on which no store of
/// `k` ever happened, or on which every store of `k` was consumed — refuses
/// retrieve of `k`, whose precondition demands that `k` be present. In
/// particular a freshly created slot map, such as the slot map of a worker
/// other than the one that stored `k`, refuses every key.
pub proof fn lemma_fresh_slot_map_refuses_every_key(fresh: SlotMap, k: u64)
    requires
        fresh@ == Map::<u64, ArtifactContent>::empty(),
    ensures
        !fresh@.contains_key(k),
{
}

} // verus!
