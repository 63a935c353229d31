pub mod api;
pub mod form;
pub mod hit_counter;
pub mod hit_counter_laws;
pub mod http;

use vstd::prelude::*;

verus! {

/// The cookie that carries the password of a protected clip.
pub const PASSWORD_COOKIE: &'static str = "password-protected-clip";

/// Why a page could not be served.
#[derive(Debug)]
pub enum PageError {
    Serialization(String),
    Render(String),
    NotFound(String),
    Internal(String),
}

} // verus!
