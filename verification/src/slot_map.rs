//! The per-worker slot map: keyed handoff storage between the producing and
//! the consuming pass.

use vstd::prelude::*;
use std::collections::HashMap;
use crate::artifact::{Artifact, ArtifactContent};
use crate::definition_id::DefinitionId;
use crate::scope::{nested_within, ScopeId, ValidityScope};

verus! {

broadcast use vstd::std_specs::hash::group_hash_axioms;

/// A per-worker mapping from definition key to stored artifact.
///
/// Each worker owns its own slot map; there is no cross-worker sharing, so
/// the worker that stores an artifact must be the worker that retrieves it.
/// The map holds every artifact with its scope marker erased and records, as
/// ghost state, the scope whose witness was presented when the artifact was
/// stored; retrieval demands a witness nested within that scope.
pub struct SlotMap {
    slots: HashMap<u64, Artifact>,
    produced_under: Ghost<Map<u64, ScopeId>>,
}

impl View for SlotMap {
    type V = Map<u64, ArtifactContent>;

    /// The stored artifacts, as content, keyed by definition.
    closed spec fn view(&self) -> Map<u64, ArtifactContent> {
        self.slots@.map_values(|a: Artifact| a.content())
    }
}

impl SlotMap {
    /// The scope under which the artifact stored at each key was produced:
    /// the scope of the witness presented at its store.
    pub closed spec fn produced_under(&self) -> Map<u64, ScopeId> {
        self.produced_under@
    }

    /// Well-formed: exactly the occupied keys have a recorded producing
    /// scope, and every stored artifact's scope marker is erased.
    pub closed spec fn wf(&self) -> bool {
        &&& self.produced_under@.dom() == self.slots@.dom()
        &&& forall|k: u64|
            self.slots@.dom().contains(k) ==> (#[trigger] self.slots@[k]).marker_erased()
    }

    /// Creates the empty slot map of one worker.
    pub fn new() -> (c: SlotMap)
        ensures
            c.wf(),
            c@ == Map::<u64, ArtifactContent>::empty(),
            c.produced_under() == Map::<u64, ScopeId>::empty(),
    {
        let c = SlotMap { slots: HashMap::new(), produced_under: Ghost(Map::empty()) };
        proof {
            assert(c@ =~= Map::<u64, ArtifactContent>::empty());
        }
        c
    }

    /// Reports whether an artifact is currently stored under `key`.
    pub fn contains(&self, key: &DefinitionId) -> (r: bool)
        ensures
            r == self@.contains_key(key.id()),
    {
        let r = self.slots.contains_key(&key.raw());
        proof {
            assert(self@.contains_key(key.id()) == self.slots@.contains_key(key.id()));
        }
        r
    }

    /// Stores `artifact` under `key`, erasing its scope marker.
    ///
    /// The caller presents `witness` for the scope that bounds the artifact's
    /// internal data. A key that is already occupied signals a phase-ordering
    /// bug in the driving pipeline and is refused by the precondition; the
    /// fatal diagnostic for that path is
    /// [`crate::diagnostics::duplicate_key_diagnostic`].
    pub fn store(&mut self, witness: &ValidityScope, key: DefinitionId, artifact: Artifact)
        requires
            old(self).wf(),
            !old(self)@.contains_key(key.id()),
            artifact.valid_for(witness.scope()),
        ensures
            final(self).wf(),
            final(self)@ == old(self)@.insert(key.id(), artifact.content()),
            final(self).produced_under() == old(self).produced_under().insert(
                key.id(),
                witness.scope(),
            ),
    {
        let erased = artifact.erase_marker();
        let _previous = self.slots.insert(key.raw(), erased);
        self.produced_under = Ghost(self.produced_under@.insert(key.id(), witness.scope()));
        proof {
            assert(self@ =~= old(self)@.insert(key.id(), artifact.content()));
            assert(self.produced_under@.dom() =~= self.slots@.dom());
        }
    }

    /// Removes and returns the artifact stored under `key`, re-attaching a
    /// scope marker for the scope `witness` testifies for.
    ///
    /// The witness presented here must be nested within (or equal to) the
    /// scope presented at the store, so the returned artifact's data is valid
    /// for it. A key with no stored artifact — a retrieve that was never
    /// preceded by a store, or a second retrieve of the same key — is refused
    /// by the precondition; the fatal diagnostic for that path is
    /// [`crate::diagnostics::missing_key_diagnostic`].
    pub fn retrieve(&mut self, witness: &ValidityScope, key: DefinitionId) -> (a: Artifact)
        requires
            old(self).wf(),
            old(self)@.contains_key(key.id()),
            nested_within(witness.scope(), old(self).produced_under()[key.id()]),
        ensures
            final(self).wf(),
            final(self)@ == old(self)@.remove(key.id()),
            final(self).produced_under() == old(self).produced_under().remove(key.id()),
            a.content() == old(self)@[key.id()],
            a.valid_for(witness.scope()),
    {
        proof {
            assert(self.slots@.contains_key(key.id()));
        }
        let removed = self.slots.remove(&key.raw());
        self.produced_under = Ghost(self.produced_under@.remove(key.id()));
        let stored = removed.unwrap();
        proof {
            assert(stored == old(self).slots@[key.id()]);
            assert(self@ =~= old(self)@.remove(key.id()));
            assert(self.produced_under@.dom() =~= self.slots@.dom());
        }
        stored.attach_marker(witness.scope_id())
    }
}

} // verus!
