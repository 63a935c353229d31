use vstd::prelude::*;

use crate::domain::clip::ClipError;
use crate::domain::field::title::{kept, opt_view};
use crate::domain::text::blank;

verus! {

/// A clip's optional password: absent, or a text that is not blank.
#[derive(Debug)]
pub struct Password(Option<String>);

impl View for Password {
    type V = Option<Seq<char>>;

    closed spec fn view(&self) -> Option<Seq<char>> {
        opt_view(self.0)
    }
}

impl Password {
    /// The password given, with a blank one taken as no password.
    pub fn new(password: Option<String>) -> (r: Result<Self, ClipError>)
        ensures
            r matches Ok(p) && p@ == kept(opt_view(password)),
    {
        match password {
            Some(password) => {
                if !blank(password.as_str()) {
                    Ok(Password(Some(password)))
                } else {
                    Ok(Password(None))
                }
            },
            None => Ok(Password(None)),
        }
    }

    pub fn into_inner(self) -> (r: Option<String>)
        ensures
            opt_view(r) == self@,
    {
        self.0
    }

    /// Whether a password is set.
    pub fn has_password(&self) -> (r: bool)
        ensures
            r == self@ is Some,
    {
        self.0.is_some()
    }

    /// Whether two passwords are the same: both absent, or both set to equal text.
    pub fn matches(&self, other: &Password) -> (r: bool)
        ensures
            r == (self@ == other@),
    {
        match (&self.0, &other.0) {
            (Some(a), Some(b)) => a.eq(b),
            (None, None) => true,
            _ => false,
        }
    }
}

impl Clone for Password {
    fn clone(&self) -> (r: Self)
        ensures
            r@ == self@,
    {
        match &self.0 {
            Some(p) => Password(Some(p.clone())),
            None => Password(None),
        }
    }
}

impl Default for Password {
    fn default() -> (r: Self)
        ensures
            r@ is None,
    {
        Password(None)
    }
}

} // verus!
