//! Short-code content sharing: the validated field types of a clip, the
//! request models, API keys, and the hit-accounting subsystem that coalesces
//! view counts before they are written to storage.
pub mod data;
pub mod domain;
pub mod service;
pub mod web;

pub use domain::clip::ClipError;
pub use domain::field::short_code::ShortCode;
pub use domain::time::Time;
