use vstd::prelude::*;

use crate::data::{uuid_of_text, uuid_text, DbId};
use crate::domain::clip::{self, ClipError};
use crate::domain::field::clip_id::ClipId;
use crate::domain::field::content::Content;
use crate::domain::field::expires_at::ExpiresAt;
use crate::domain::field::hits::Hits;
use crate::domain::field::password::Password;
use crate::domain::field::posted_at::PostedAt;
use crate::domain::field::short_code::{is_code_char, ShortCode, CODE_LEN};
use crate::domain::field::title::{kept, opt_view, Title};
use crate::domain::text::is_blank;
use crate::domain::time::Time;
use crate::service::ask;

verus! {

/// The stored form of an optional expiry: its timestamp.
pub open spec fn expiry_secs(t: Option<Time>) -> Option<i64> {
    match t {
        Some(t) => Some(t.secs()),
        None => None,
    }
}

fn expiry_timestamp(t: Option<Time>) -> (r: Option<i64>)
    ensures
        r == expiry_secs(t),
{
    match t {
        Some(t) => Some(t.timestamp()),
        None => None,
    }
}

/// A clip as its row in storage holds it; times are in seconds since the
/// Unix epoch.
#[derive(Debug)]
pub struct Clip {
    pub clip_id: String,
    pub short_code: String,
    pub content: String,
    pub title: Option<String>,
    pub posted_at: i64,
    pub expires_at: Option<i64>,
    pub password: Option<String>,
    pub hits: i64,
}

fn expiry_time(t: Option<i64>) -> (r: Option<Time>)
    ensures
        expiry_secs(r) == t,
{
    match t {
        Some(secs) => Some(Time::from_timestamp(secs)),
        None => None,
    }
}

impl Clip {
    /// The clip that the row holds. The row is refused when its identifier is
    /// not a UUID, then when its content is blank, then when its hit count is
    /// negative; a blank title or password counts as none.
    pub fn into_clip(self) -> (r: Result<clip::Clip, ClipError>)
        ensures
            uuid_of_text(self.clip_id@) is None ==> (r matches Err(e) && e is Id),
            uuid_of_text(self.clip_id@) is Some && is_blank(self.content@) ==> (r matches Err(e)
                && e is EmptyContent),
            uuid_of_text(self.clip_id@) is Some && !is_blank(self.content@) && self.hits < 0 ==> (r matches Err(e) && e is Hits),
            uuid_of_text(self.clip_id@) is Some && !is_blank(self.content@) && self.hits >= 0 ==> (
            r matches Ok(c) && {
                &&& Some(c.clip_id.id().value()) == uuid_of_text(self.clip_id@)
                &&& c.short_code@ == self.short_code@
                &&& c.content@ == self.content@
                &&& c.title@ == kept(opt_view(self.title))
                &&& c.posted_at.time().secs() == self.posted_at
                &&& expiry_secs(c.expires_at.time()) == self.expires_at
                &&& c.password@ == kept(opt_view(self.password))
                &&& c.hits.value() == self.hits
            }),
    {
        let clip_id = match DbId::from_str(self.clip_id.as_str()) {
            Ok(id) => ClipId::new(id),
            Err(e) => return Err(ClipError::Id(e)),
        };
        let content = match Content::new(self.content.as_str()) {
            Ok(c) => c,
            Err(e) => return Err(e),
        };
        let password = match Password::new(self.password) {
            Ok(p) => p,
            Err(e) => return Err(e),
        };
        let hits = match u64::try_from(self.hits) {
            Ok(h) => Hits::new(h),
            Err(e) => return Err(ClipError::Hits(e)),
        };
        Ok(clip::Clip {
            clip_id,
            short_code: ShortCode(self.short_code),
            content,
            title: Title::new(self.title),
            posted_at: PostedAt::new(Time::from_timestamp(self.posted_at)),
            expires_at: ExpiresAt::new(expiry_time(self.expires_at)),
            password,
            hits,
        })
    }
}

/// The lookup of a stored clip by its code.
#[derive(Debug)]
pub struct GetClip {
    pub short_code: String,
}

impl GetClip {
    pub fn from_ask(req: ask::GetClip) -> (r: Self)
        ensures
            r.short_code@ == req.short_code@,
    {
        GetClip { short_code: req.short_code.into_inner() }
    }

    pub fn from_short_code(short_code: ShortCode) -> (r: Self)
        ensures
            r.short_code@ == short_code@,
    {
        GetClip { short_code: short_code.into_inner() }
    }

    pub fn from_string(short_code: String) -> (r: Self)
        ensures
            r.short_code == short_code,
    {
        GetClip { short_code }
    }
}

/// The row to insert for a new clip.
#[derive(Debug)]
pub struct NewClip {
    pub clip_id: String,
    pub short_code: String,
    pub content: String,
    pub title: Option<String>,
    /// Seconds since the Unix epoch.
    pub posted_at: i64,
    /// Seconds since the Unix epoch.
    pub expires_at: Option<i64>,
    pub password: Option<String>,
}

impl NewClip {
    /// The row for `req`, posted at `posted_at`, under a fresh random
    /// identifier and a freshly generated short code.
    pub fn from_request(req: ask::NewClip, posted_at: i64) -> (r: Self)
        ensures
            exists|v: u128| r.clip_id@ == uuid_text(v),
            r.short_code@.len() == CODE_LEN as int,
            forall|i: int| 0 <= i < r.short_code@.len() ==> is_code_char(#[trigger] r.short_code@[i]),
            r.content@ == req.content@,
            opt_view(r.title) == req.title@,
            r.posted_at == posted_at,
            r.expires_at == expiry_secs(req.expires_at.time()),
            opt_view(r.password) == req.password@,
    {
        let expires_at = expiry_timestamp(req.expires_at.into_inner());
        NewClip {
            clip_id: DbId::new().to_text(),
            short_code: ShortCode::new().into_inner(),
            content: req.content.into_inner(),
            title: req.title.into_inner(),
            posted_at,
            expires_at,
            password: req.password.into_inner(),
        }
    }
}

/// The new values of a stored clip.
#[derive(Debug)]
pub struct UpdateClip {
    pub short_code: String,
    pub content: String,
    pub title: Option<String>,
    /// Seconds since the Unix epoch.
    pub expires_at: Option<i64>,
    pub password: Option<String>,
}

impl UpdateClip {
    pub fn from_request(req: ask::UpdateClip) -> (r: Self)
        ensures
            r.short_code@ == req.short_code@,
            r.content@ == req.content@,
            opt_view(r.title) == req.title@,
            r.expires_at == expiry_secs(req.expires_at.time()),
            opt_view(r.password) == req.password@,
    {
        let expires_at = expiry_timestamp(req.expires_at.into_inner());
        UpdateClip {
            short_code: req.short_code.into_inner(),
            content: req.content.into_inner(),
            title: req.title.into_inner(),
            expires_at,
            password: req.password.into_inner(),
        }
    }
}

} // verus!
