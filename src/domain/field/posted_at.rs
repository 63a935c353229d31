use vstd::prelude::*;

use crate::domain::time::Time;

verus! {

/// When a clip was posted.
#[derive(Clone, Copy, PartialEq, Eq, Structural, Debug)]
pub struct PostedAt(Time);

impl PostedAt {
    pub fn new(time: Time) -> (r: Self)
        ensures
            r.time() == time,
    {
        PostedAt(time)
    }

    pub closed spec fn time(&self) -> Time {
        self.0
    }

    pub fn into_inner(self) -> (r: Time)
        ensures
            r == self.time(),
    {
        self.0
    }
}

} // verus!
