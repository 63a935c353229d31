use vstd::prelude::*;

use crate::domain::field::clip_id::ClipId;
use crate::domain::field::content::Content;
use crate::domain::field::expires_at::ExpiresAt;
use crate::domain::field::hits::Hits;
use crate::domain::field::password::Password;
use crate::domain::field::posted_at::PostedAt;
use crate::domain::field::short_code::ShortCode;
use crate::domain::field::title::Title;
use vstd::string::StringExecFns;

verus! {

#[verifier::external_type_specification]
#[verifier::external_body]
pub struct ExParseError(chrono::ParseError);

/// Why a clip or one of its fields was refused.
#[derive(Debug)]
pub enum ClipError {
    InvalidPassword(String),
    InvalidTitle(String),
    EmptyContent,
    InvalidDate(String),
    DateParse(chrono::ParseError),
    Id(uuid::Error),
    Hits(core::num::TryFromIntError),
}

/// A stored clip.
#[derive(Debug)]
pub struct Clip {
    pub clip_id: ClipId,
    pub short_code: ShortCode,
    pub content: Content,
    pub title: Title,
    pub posted_at: PostedAt,
    pub expires_at: ExpiresAt,
    pub password: Password,
    pub hits: Hits,
}


/// Whether `t` is the text that says what `e` refused: the fixed words of
/// each kind, followed by the detail it carries. The detail of an error of
/// chrono, uuid or an integer conversion is that error's own `Display` text.
pub open spec fn is_clip_error_text(e: ClipError, t: Seq<char>) -> bool {
    match e {
        ClipError::InvalidPassword(m) => t == "invalid password: "@ + m@,
        ClipError::InvalidTitle(m) => t == "invalid title: "@ + m@,
        ClipError::EmptyContent => t == "empty content"@,
        ClipError::InvalidDate(m) => t == "invalid date: "@ + m@,
        ClipError::DateParse(_) => exists|d: Seq<char>| t == "date parse error: "@ + d,
        ClipError::Id(_) => exists|d: Seq<char>| t == "id parse error: "@ + d,
        ClipError::Hits(_) => exists|d: Seq<char>| t == "hits parse error: "@ + d,
    }
}

impl ClipError {
    /// A sentence that says what was refused.
    pub fn to_text(&self) -> (r: String)
        ensures
            is_clip_error_text(*self, r@),
    {
        match self {
            ClipError::InvalidPassword(m) => {
                let mut text = "invalid password: ".to_string();
                text.append(m.as_str());
                text
            },
            ClipError::InvalidTitle(m) => {
                let mut text = "invalid title: ".to_string();
                text.append(m.as_str());
                text
            },
            ClipError::EmptyContent => "empty content".to_string(),
            ClipError::InvalidDate(m) => {
                let mut text = "invalid date: ".to_string();
                text.append(m.as_str());
                text
            },
            ClipError::DateParse(e) => {
                let mut text = "date parse error: ".to_string();
                let detail = e.to_string();
                text.append(detail.as_str());
                text
            },
            ClipError::Id(e) => {
                let mut text = "id parse error: ".to_string();
                let detail = e.to_string();
                text.append(detail.as_str());
                text
            },
            ClipError::Hits(e) => {
                let mut text = "hits parse error: ".to_string();
                let detail = e.to_string();
                text.append(detail.as_str());
                text
            },
        }
    }
}



} // verus!
