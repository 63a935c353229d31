pub mod clip;
pub mod field;
pub mod text;
pub mod time;
