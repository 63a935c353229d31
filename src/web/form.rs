use vstd::prelude::*;

use crate::domain::field::content::Content;
use crate::domain::field::expires_at::ExpiresAt;
use crate::domain::field::password::Password;
use crate::domain::field::title::Title;

verus! {

/// The fields of the form that posts a new clip.
#[derive(Debug)]
pub struct NewClip {
    pub content: Content,
    pub title: Title,
    pub expires_at: ExpiresAt,
    pub password: Password,
}

/// The form that unlocks a password-protected clip.
#[derive(Debug)]
pub struct PasswordProtectedClip {
    pub password: Password,
}

} // verus!
