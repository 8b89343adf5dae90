use vstd::prelude::*;

verus! {

/// A position in the render object arena: a slot and the generation of its
/// occupant, so a handle to a removed object does not name its successor.
#[derive(Clone, Copy, Debug, PartialEq, Eq, Structural)]
pub struct ArenaIndex {
    pub slot: u32,
    pub generation: u32,
}

impl ArenaIndex {
    /// The index that names no object.
    pub open spec fn spec_invalid() -> ArenaIndex {
        ArenaIndex { slot: u32::MAX, generation: u32::MAX }
    }

    pub fn invalid() -> (r: ArenaIndex)
        ensures
            r == ArenaIndex::spec_invalid(),
    {
        ArenaIndex { slot: u32::MAX, generation: u32::MAX }
    }
}

/// A handle to a render object.
#[derive(Clone, Copy, Debug, PartialEq, Eq, Structural)]
pub struct RenderObjectHandle(pub ArenaIndex);

impl RenderObjectHandle {
    /// The handle that names no object.
    pub fn invalid() -> (r: RenderObjectHandle)
        ensures
            r == RenderObjectHandle(ArenaIndex::spec_invalid()),
    {
        RenderObjectHandle(ArenaIndex::invalid())
    }

    /// True unless this is the invalid handle.
    pub fn is_valid(&self) -> (r: bool)
        ensures
            r == (self.0 != ArenaIndex::spec_invalid()),
    {
        !(self.0.slot == u32::MAX && self.0.generation == u32::MAX)
    }

    /// The arena index of the object.
    pub fn index(&self) -> (r: ArenaIndex)
        ensures
            r == self.0,
    {
        self.0
    }
}

} // verus!
