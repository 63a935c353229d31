use vstd::prelude::*;

use crate::domain::clip::ClipError;
use crate::domain::text::{blank, is_blank};
use crate::domain::time::{day_start_of, Time};

verus! {

/// When a clip expires, if it ever does.
#[derive(Clone, Copy, PartialEq, Eq, Structural, Debug)]
pub struct ExpiresAt(Option<Time>);

impl ExpiresAt {
    pub fn new(expires_at: Option<Time>) -> (r: Self)
        ensures
            r.time() == expires_at,
    {
        ExpiresAt(expires_at)
    }

    pub closed spec fn time(&self) -> Option<Time> {
        self.0
    }

    pub fn into_inner(self) -> (r: Option<Time>)
        ensures
            r == self.time(),
    {
        self.0
    }

    /// Blank text means no expiry; other text must name a `YYYY-MM-DD` day,
    /// and the clip expires when that UTC day begins.
    pub fn from_str(s: &str) -> (r: Result<Self, ClipError>)
        ensures
            is_blank(s@) ==> (r matches Ok(e) && e.time() is None),
            !is_blank(s@) ==> match r {
                Ok(e) => e.time() matches Some(t) && day_start_of(s@) == Some(t.secs()),
                Err(err) => err is DateParse && day_start_of(s@) is None,
            },
    {
        if blank(s) {
            Ok(ExpiresAt(None))
        } else {
            match Time::from_str(s) {
                Ok(time) => Ok(ExpiresAt::new(Some(time))),
                Err(e) => Err(ClipError::DateParse(e)),
            }
        }
    }
}

impl Default for ExpiresAt {
    fn default() -> (r: Self)
        ensures
            r.time() is None,
    {
        ExpiresAt(None)
    }
}

} // verus!
