//! Artifacts and their scope markers.

use vstd::prelude::*;
use crate::scope::{ScopeId, ValidityScope};

verus! {

/// What an artifact's scope marker says about the validity of its data.
#[derive(Clone, Copy, PartialEq, Eq, Structural, Debug)]
pub enum ScopeMarker {
    /// No claim: the artifact sits in a slot map, between the pass that
    /// produced it and the pass that will consume it.
    Erased,
    /// The artifact's internal data is valid exactly for this scope.
    Attached { scope: ScopeId },
}

/// The data of an artifact, independent of its scope marker: what the
/// producing and the consuming pass observe of it.
pub struct ArtifactContent {
    pub body: Seq<u8>,
    pub facts: Seq<u64>,
}

/// The control-flow body and the derived fact set produced for one
/// definition, together with the scope marker that records for which scope
/// the data is valid.
pub struct Artifact {
    body: Vec<u8>,
    facts: Vec<u64>,
    marker: ScopeMarker,
}

impl Artifact {
    /// The data of the artifact, independent of its scope marker.
    pub closed spec fn content(&self) -> ArtifactContent {
        ArtifactContent { body: self.body@, facts: self.facts@ }
    }

    /// The artifact's scope marker.
    pub closed spec fn marker(&self) -> ScopeMarker {
        self.marker
    }

    /// The artifact's internal data is valid exactly for `scope`.
    pub open spec fn valid_for(&self, scope: ScopeId) -> bool {
        self.marker() == (ScopeMarker::Attached { scope })
    }

    /// The artifact carries no validity claim; only such artifacts may sit in
    /// a slot map.
    pub open spec fn marker_erased(&self) -> bool {
        self.marker() == ScopeMarker::Erased
    }

    /// A producer creates an artifact inside the scope `witness` testifies
    /// for; the artifact's data is valid exactly for that scope.
    pub fn new(body: Vec<u8>, facts: Vec<u64>, witness: &ValidityScope) -> (a: Artifact)
        ensures
            a.content() == (ArtifactContent { body: body@, facts: facts@ }),
            a.valid_for(witness.scope()),
    {
        Artifact { body, facts, marker: ScopeMarker::Attached { scope: witness.scope_id() } }
    }

    /// The control-flow body.
    pub fn body(&self) -> (r: &Vec<u8>)
        ensures
            r@ == self.content().body,
    {
        &self.body
    }

    /// The derived fact set.
    pub fn facts(&self) -> (r: &Vec<u64>)
        ensures
            r@ == self.content().facts,
    {
        &self.facts
    }

    /// Decides whether the artifact's data is marked valid exactly for the
    /// scope `witness` testifies for.
    pub fn carries_scope_of(&self, witness: &ValidityScope) -> (r: bool)
        ensures
            r == self.valid_for(witness.scope()),
    {
        match self.marker {
            ScopeMarker::Attached { scope } => scope == witness.scope_id(),
            ScopeMarker::Erased => false,
        }
    }

    /// The single point in the crate where a scope marker is erased.
    ///
    /// Erasure removes the validity claim from the artifact's type so it can
    /// sit in a slot map, which holds no scope. It is sound only as part of
    /// the store discipline: the slot map records (in ghost state) the scope
    /// whose witness was presented at the store, and only a retrieve whose
    /// witness is nested within that scope may re-attach a marker.
    pub(crate) fn erase_marker(self) -> (a: Artifact)
        ensures
            a.content() == self.content(),
            a.marker_erased(),
    {
        let Artifact { body, facts, marker: _ } = self;
        Artifact { body, facts, marker: ScopeMarker::Erased }
    }

    /// The single point in the crate where a scope marker is re-attached.
    ///
    /// Only the slot map's retrieve calls this, for the scope of the witness
    /// presented at retrieval, after its contract has forced that scope to be
    /// nested within the scope presented at the store.
    pub(crate) fn attach_marker(self, scope: ScopeId) -> (a: Artifact)
        requires
            self.marker_erased(),
        ensures
            a.content() == self.content(),
            a.valid_for(scope),
    {
        let Artifact { body, facts, marker: _ } = self;
        Artifact { body, facts, marker: ScopeMarker::Attached { scope } }
    }
}

} // verus!
