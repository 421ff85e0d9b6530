//! Keys for the slot map: opaque identifiers of analyzable definitions.

use vstd::prelude::*;

verus! {

/// An opaque, stable identifier of one analyzable definition. Acts as the
/// cache key; stable for the lifetime of the compilation session.
#[derive(Clone, Copy, PartialEq, Eq, Hash, Structural, Debug)]
pub struct DefinitionId {
    raw: u64,
}

impl DefinitionId {
    /// The identifier as a number.
    pub closed spec fn id(&self) -> u64 {
        self.raw
    }

    /// Wraps the number the host assigned to a definition.
    pub fn new(raw: u64) -> (d: DefinitionId)
        ensures
            d.id() == raw,
    {
        DefinitionId { raw }
    }

    /// The identifier as a number.
    pub fn raw(&self) -> (r: u64)
        ensures
            r == self.id(),
    {
        self.raw
    }
}

} // verus!
