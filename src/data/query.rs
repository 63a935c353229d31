use vstd::prelude::*;

verus! {

/// What revoking an API key did.
#[derive(PartialEq, Eq, Structural, Clone, Copy, Debug)]
pub enum RevocationStatus {
    Revoked,
    NotFound,
}

impl RevocationStatus {
    /// The status of a revocation that deleted `rows_affected` stored keys.
    pub fn from_rows_affected(rows_affected: u64) -> (r: Self)
        ensures
            r == (if rows_affected == 0 {
                RevocationStatus::NotFound
            } else {
                RevocationStatus::Revoked
            }),
    {
        if rows_affected == 0 {
            RevocationStatus::NotFound
        } else {
            RevocationStatus::Revoked
        }
    }
}

/// Whether a key is valid, given how many stored keys are equal to it.
pub fn key_is_stored(count: u32) -> (r: bool)
    ensures
        r == (count > 0),
{
    count > 0
}

} // verus!
