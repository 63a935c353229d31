use vstd::prelude::*;

use crate::domain::clip::ClipError;
use crate::domain::text::{blank, is_blank};

verus! {

/// The text of a clip: never blank.
#[derive(Debug)]
pub struct Content(String);

impl View for Content {
    type V = Seq<char>;

    closed spec fn view(&self) -> Seq<char> {
        self.0@
    }
}

impl Content {
    #[verifier::type_invariant]
    spec fn not_blank(&self) -> bool {
        !is_blank(self.0@)
    }

    /// The content as given, or `EmptyContent` when it is empty or white
    /// space only.
    pub fn new(content: &str) -> (r: Result<Self, ClipError>)
        ensures
            r is Ok <==> !is_blank(content@),
            r matches Ok(c) ==> c@ == content@,
            r matches Err(e) ==> e is EmptyContent,
    {
        if blank(content) {
            Err(ClipError::EmptyContent)
        } else {
            Ok(Content(content.to_owned()))
        }
    }

    pub fn into_inner(self) -> (r: String)
        ensures
            r@ == self@,
            !is_blank(r@),
    {
        proof {
            use_type_invariant(&self);
        }
        self.0
    }

    pub fn as_str(&self) -> (r: &str)
        ensures
            r@ == self@,
            !is_blank(r@),
    {
        proof {
            use_type_invariant(self);
        }
        self.0.as_str()
    }
}

impl Clone for Content {
    fn clone(&self) -> (r: Self)
        ensures
            r@ == self@,
    {
        proof {
            use_type_invariant(self);
        }
        Content(self.0.clone())
    }
}

} // verus!
