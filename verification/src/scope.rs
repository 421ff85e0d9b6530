//! Analysis session scopes and the witness values that testify for them.

use vstd::prelude::*;

verus! {

/// Identifies one analysis session scope: the session it belongs to and how
/// deeply it is nested inside that session's outermost scope.
#[derive(Clone, Copy, PartialEq, Eq, Structural, Debug)]
pub struct ScopeId {
    pub session: u64,
    pub depth: u64,
}

/// Holds when data produced under `outer` may still be observed under
/// `inner`: the two scopes belong to the same session and `inner` is the same
/// scope as `outer` or one opened inside it.
pub open spec fn nested_within(inner: ScopeId, outer: ScopeId) -> bool {
    inner.session == outer.session && inner.depth >= outer.depth
}

/// A witness that an analysis session scope is currently active.
///
/// A witness is presented at every store and retrieve; it is never stored.
/// It is the caller's proof of correct usage: the cache's contracts are
/// stated over the scope a witness testifies for.
#[derive(Clone, Copy, Debug)]
pub struct ValidityScope {
    id: ScopeId,
}

impl ValidityScope {
    /// The scope this witness testifies for.
    pub closed spec fn scope(&self) -> ScopeId {
        self.id
    }

    /// Opens the outermost scope of the session named `session`.
    pub fn new(session: u64) -> (w: ValidityScope)
        ensures
            w.scope() == (ScopeId { session, depth: 0 }),
    {
        ValidityScope { id: ScopeId { session, depth: 0 } }
    }

    /// Opens a scope nested one level within this one. Data valid for the
    /// enclosing scope stays valid for the nested scope.
    pub fn nested(&self) -> (w: ValidityScope)
        requires
            self.scope().depth < u64::MAX,
        ensures
            w.scope() == (ScopeId { session: self.scope().session, depth: (self.scope().depth + 1) as u64 }),
            nested_within(w.scope(), self.scope()),
    {
        ValidityScope { id: ScopeId { session: self.id.session, depth: self.id.depth + 1 } }
    }

    /// The scope this witness testifies for, as a value.
    pub fn scope_id(&self) -> (s: ScopeId)
        ensures
            s == self.scope(),
    {
        self.id
    }

    /// Decides whether this witness's scope is nested within (or equal to)
    /// `outer`'s scope.
    pub fn is_nested_within(&self, outer: &ValidityScope) -> (r: bool)
        ensures
            r == nested_within(self.scope(), outer.scope()),
    {
        self.id.session == outer.id.session && self.id.depth >= outer.id.depth
    }
}

} // verus!
