use vstd::prelude::*;

use crate::domain::clip::ClipError;
use crate::domain::text::{blank, is_blank};

verus! {

/// The text kept of an optional field: absent when it is missing or blank.
pub open spec fn kept(s: Option<Seq<char>>) -> Option<Seq<char>> {
    match s {
        Some(t) => if is_blank(t) {
            None
        } else {
            Some(t)
        },
        None => None,
    }
}

/// The view of an optional text.
pub open spec fn opt_view(s: Option<String>) -> Option<Seq<char>> {
    match s {
        Some(t) => Some(t@),
        None => None,
    }
}

/// A clip's optional title: absent, or a text that is not blank.
#[derive(Debug)]
pub struct Title(Option<String>);

impl View for Title {
    type V = Option<Seq<char>>;

    closed spec fn view(&self) -> Option<Seq<char>> {
        opt_view(self.0)
    }
}

impl Title {
    /// The title given, with a blank one taken as no title.
    pub fn new(title: Option<String>) -> (r: Self)
        ensures
            r@ == kept(opt_view(title)),
    {
        match title {
            Some(title) => {
                if !blank(title.as_str()) {
                    Title(Some(title))
                } else {
                    Title(None)
                }
            },
            None => Title(None),
        }
    }

    /// The title read from text; blank text gives no title.
    pub fn from_str(s: &str) -> (r: Result<Self, ClipError>)
        ensures
            r matches Ok(t) && t@ == kept(Some(s@)),
    {
        Ok(Self::new(Some(s.to_owned())))
    }

    pub fn into_inner(self) -> (r: Option<String>)
        ensures
            opt_view(r) == self@,
    {
        self.0
    }
}

impl Default for Title {
    fn default() -> (r: Self)
        ensures
            r@ is None,
    {
        Title(None)
    }
}

} // verus!
