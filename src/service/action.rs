use vstd::prelude::*;

use crate::domain::clip::Clip;
use crate::domain::field::password::Password;
use crate::service::ServiceError;

verus! {

/// Whether a reader who gave `given` may see a clip protected by `stored`:
/// always when the clip has no password, otherwise only with the same password.
pub open spec fn may_read(stored: Option<Seq<char>>, given: Option<Seq<char>>) -> bool {
    stored is None || stored == given
}

/// The password check on reading a clip: `Ok` when the reader may see it,
/// a permission error otherwise.
pub fn check_password(stored: &Password, given: &Password) -> (r: Result<(), ServiceError>)
    ensures
        r is Ok <==> may_read(stored@, given@),
        r matches Err(e) ==> (e matches ServiceError::PermissionError(m) && m@
            == "invalid password"@),
{
    if stored.has_password() {
        if stored.matches(given) {
            Ok(())
        } else {
            Err(ServiceError::PermissionError("invalid password".to_string()))
        }
    } else {
        Ok(())
    }
}

/// A stored clip as handed to a reader who gave `user_password`: the clip
/// itself when the reader may see it, a permission error otherwise.
pub fn get_clip(clip: Clip, user_password: &Password) -> (r: Result<Clip, ServiceError>)
    ensures
        may_read(clip.password@, user_password@) ==> r == Ok::<Clip, ServiceError>(clip),
        !may_read(clip.password@, user_password@) ==> (r matches Err(
            ServiceError::PermissionError(m),
        ) && m@ == "invalid password"@),
{
    match check_password(&clip.password, user_password) {
        Ok(()) => Ok(clip),
        Err(e) => Err(e),
    }
}

} // verus!
