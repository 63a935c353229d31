use vstd::prelude::*;

use crate::domain::field::content::Content;
use crate::domain::field::expires_at::ExpiresAt;
use crate::domain::field::password::Password;
use crate::domain::field::short_code::ShortCode;
use crate::domain::field::title::Title;

verus! {

/// A request to store a new clip.
#[derive(Debug)]
pub struct NewClip {
    pub content: Content,
    pub title: Title,
    pub expires_at: ExpiresAt,
    pub password: Password,
}

/// A request to change a stored clip.
#[derive(Debug)]
pub struct UpdateClip {
    pub content: Content,
    pub title: Title,
    pub expires_at: ExpiresAt,
    pub password: Password,
    pub short_code: ShortCode,
}

/// A request to read a clip, with the password the reader gave.
#[derive(Debug)]
pub struct GetClip {
    pub short_code: ShortCode,
    pub password: Password,
}

impl GetClip {
    /// A request for the clip under this code, with no password.
    pub fn from_raw(short_code: &str) -> (r: Self)
        ensures
            r.short_code@ == short_code@,
            r.password@ is None,
    {
        GetClip { short_code: ShortCode(short_code.to_owned()), password: Password::default() }
    }

    /// A request for the clip under this code, with no password.
    pub fn from_short_code(short_code: ShortCode) -> (r: Self)
        ensures
            r.short_code@ == short_code@,
            r.password@ is None,
    {
        GetClip { short_code, password: Password::default() }
    }
}

} // verus!
