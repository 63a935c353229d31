use vstd::prelude::*;

use crate::data::DbId;

verus! {

/// The identifier of a clip.
#[derive(Clone, Copy, PartialEq, Eq, Structural, Debug)]
pub struct ClipId(DbId);

impl ClipId {
    pub fn new(id: DbId) -> (r: Self)
        ensures
            r.id() == id,
    {
        ClipId(id)
    }

    pub closed spec fn id(&self) -> DbId {
        self.0
    }

    pub fn into_inner(self) -> (r: DbId)
        ensures
            r == self.id(),
    {
        self.0
    }
}

impl Default for ClipId {
    /// The nil identifier, for a clip that is not stored yet.
    fn default() -> (r: Self)
        ensures
            r.id().value() == 0,
    {
        ClipId(DbId::nil())
    }
}

} // verus!
