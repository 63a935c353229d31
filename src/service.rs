pub mod action;
pub mod ask;

use vstd::prelude::*;

use crate::domain::clip::ClipError;

verus! {

/// Why a request on clips or keys failed.
#[derive(Debug)]
pub enum ServiceError {
    Clip(ClipError),
    NotFound,
    /// Storage failed; the text says how.
    Data(String),
    PermissionError(String),
}

} // verus!
