pub mod clip_id;
pub mod content;
pub mod expires_at;
pub mod hits;
pub mod password;
pub mod posted_at;
pub mod short_code;
pub mod title;
