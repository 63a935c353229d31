use vstd::prelude::*;

verus! {

/// How many times a clip has been viewed.
#[derive(Clone, Copy, PartialEq, Eq, Structural, Debug)]
pub struct Hits(u64);

impl Hits {
    pub fn new(hits: u64) -> (r: Self)
        ensures
            r.value() == hits,
    {
        Hits(hits)
    }

    pub closed spec fn value(&self) -> u64 {
        self.0
    }

    pub fn into_inner(self) -> (r: u64)
        ensures
            r == self.value(),
    {
        self.0
    }
}

} // verus!
