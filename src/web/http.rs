use vstd::prelude::*;
use vstd::string::StrSliceExecFns;

use crate::domain::field::short_code::ShortCode;
use crate::service::ServiceError;

verus! {

/// The request methods the site answers.
#[derive(PartialEq, Eq, Structural, Clone, Copy, Debug)]
pub enum Method {
    Get,
    Post,
    Put,
}

/// The statuses a response can end with, as HTTP codes.
pub const STATUS_OK: u16 = 200;

pub const STATUS_SEE_OTHER: u16 = 303;

pub const STATUS_BAD_REQUEST: u16 = 400;

pub const STATUS_UNAUTHORIZED: u16 = 401;

pub const STATUS_NOT_FOUND: u16 = 404;

pub const STATUS_INTERNAL_SERVER_ERROR: u16 = 500;

/// The pages of the site.
#[derive(Debug)]
pub enum Route {
    /// `GET /`: the form for a new clip.
    Home,
    /// `POST /`: store a new clip.
    NewClip,
    /// `GET /<code>`: show a clip.
    GetClip(ShortCode),
    /// `POST /clip/<code>`: unlock a protected clip with its password.
    SubmitClipPassword(ShortCode),
    /// `GET /clip/raw/<code>`: a clip's bare content.
    GetRawClip(ShortCode),
}

/// A page, with its code by its text.
pub enum RouteView {
    Home,
    NewClip,
    GetClip(Seq<char>),
    SubmitClipPassword(Seq<char>),
    GetRawClip(Seq<char>),
}

impl View for Route {
    type V = RouteView;

    open spec fn view(&self) -> RouteView {
        match self {
            Route::Home => RouteView::Home,
            Route::NewClip => RouteView::NewClip,
            Route::GetClip(c) => RouteView::GetClip(c@),
            Route::SubmitClipPassword(c) => RouteView::SubmitClipPassword(c@),
            Route::GetRawClip(c) => RouteView::GetRawClip(c@),
        }
    }
}

/// One path segment: not empty, and without a `/`.
pub open spec fn is_segment(s: Seq<char>) -> bool {
    s.len() > 0 && forall|i: int| 0 <= i < s.len() ==> s[i] != '/'
}

/// What follows `prefix` in `path`, when that is exactly one segment.
pub open spec fn segment_after(path: Seq<char>, prefix: Seq<char>) -> Option<Seq<char>> {
    if prefix.len() <= path.len() && path.take(prefix.len() as int) == prefix && is_segment(
        path.skip(prefix.len() as int),
    ) {
        Some(path.skip(prefix.len() as int))
    } else {
        None
    }
}

/// The page that answers `method` on `path`; `None` when no page does.
pub open spec fn route_of(method: Method, path: Seq<char>) -> Option<RouteView> {
    if path == "/"@ {
        match method {
            Method::Get => Some(RouteView::Home),
            Method::Post => Some(RouteView::NewClip),
            Method::Put => None,
        }
    } else if method == Method::Get && segment_after(path, "/"@) is Some {
        Some(RouteView::GetClip(segment_after(path, "/"@)->Some_0))
    } else if method == Method::Post && segment_after(path, "/clip/"@) is Some {
        Some(RouteView::SubmitClipPassword(segment_after(path, "/clip/"@)->Some_0))
    } else if method == Method::Get && segment_after(path, "/clip/raw/"@) is Some {
        Some(RouteView::GetRawClip(segment_after(path, "/clip/raw/"@)->Some_0))
    } else {
        None
    }
}

fn take_segment(path: &str, prefix: &str) -> (r: Option<ShortCode>)
    ensures
        match r {
            Some(c) => segment_after(path@, prefix@) == Some(c@),
            None => segment_after(path@, prefix@) is None,
        },
{
    let n = path.unicode_len();
    let k = prefix.unicode_len();
    if k > n {
        return None;
    }
    let mut i: usize = 0;
    while i < k
        invariant
            k <= n,
            n == path@.len(),
            k == prefix@.len(),
            i <= k,
            forall|j: int| 0 <= j < i ==> path@[j] == prefix@[j],
        decreases k - i,
    {
        if path.get_char(i) != prefix.get_char(i) {
            assert(path@.take(k as int)[i as int] != prefix@[i as int]);
            return None;
        }
        i = i + 1;
    }
    assert(path@.take(k as int) == prefix@);
    if k == n {
        return None;
    }
    let mut j: usize = k;
    while j < n
        invariant
            k < n,
            n == path@.len(),
            k <= j <= n,
            k == prefix@.len(),
            path@.take(k as int) == prefix@,
            forall|m: int| k <= m < j ==> path@[m] != '/',
        decreases n - j,
    {
        if path.get_char(j) == '/' {
            assert(path@.skip(k as int)[j - k] == '/');
            return None;
        }
        j = j + 1;
    }
    let rest = path.substring_char(k, n);
    assert(rest@ == path@.skip(k as int));
    Some(ShortCode(rest.to_owned()))
}

/// The page that answers `method` on `path`; `None` when no page does, and
/// the request ends in the not-found catcher.
pub fn dispatch(method: Method, path: &str) -> (r: Option<Route>)
    ensures
        match r {
            Some(route) => route_of(method, path@) == Some(route@),
            None => route_of(method, path@) is None,
        },
{
    proof {
        reveal_strlit("/");
        reveal_strlit("/clip/");
        reveal_strlit("/clip/raw/");
    }
    if path.unicode_len() == 1 && path.get_char(0) == '/' {
        assert(path@ == "/"@);
        return match method {
            Method::Get => Some(Route::Home),
            Method::Post => Some(Route::NewClip),
            Method::Put => None,
        };
    }
    assert(path@ != "/"@);
    if method == Method::Get {
        if let Some(code) = take_segment(path, "/") {
            return Some(Route::GetClip(code));
        }
    }
    if method == Method::Post {
        if let Some(code) = take_segment(path, "/clip/") {
            return Some(Route::SubmitClipPassword(code));
        }
    }
    if method == Method::Get {
        if let Some(code) = take_segment(path, "/clip/raw/") {
            return Some(Route::GetRawClip(code));
        }
    }
    None
}

/// The route table of the site: each page's method and path pattern.
pub fn routes() -> (r: Vec<(Method, &'static str)>)
    ensures
        r@.len() == 5,
        r@[0] == (Method::Get, "/"),
        r@[1] == (Method::Get, "/<short_code>"),
        r@[2] == (Method::Post, "/"),
        r@[3] == (Method::Post, "/clip/<short_code>"),
        r@[4] == (Method::Get, "/clip/raw/<short_code>"),
{
    vec![
        (Method::Get, "/"),
        (Method::Get, "/<short_code>"),
        (Method::Post, "/"),
        (Method::Post, "/clip/<short_code>"),
        (Method::Get, "/clip/raw/<short_code>"),
    ]
}

/// The status a request ends with when it needs no storage to decide it: the
/// home page always renders, and a request that no page answers is not found.
/// `None` for the pages whose status depends on a stored clip.
pub fn status_without_storage(route: &Option<Route>) -> (r: Option<u16>)
    ensures
        r == match route {
            None => Some(STATUS_NOT_FOUND),
            Some(Route::Home) => Some(STATUS_OK),
            Some(_) => None::<u16>,
        },
{
    match route {
        None => Some(STATUS_NOT_FOUND),
        Some(Route::Home) => Some(STATUS_OK),
        Some(_) => None,
    }
}

/// How reading a clip from storage went.
#[derive(Debug)]
pub enum Lookup {
    Found,
    /// The clip is protected and the password given was not its password.
    PasswordRefused,
    Missing,
    Failed,
}

/// How a service result reads as a lookup.
pub fn lookup_of(err: &Option<ServiceError>) -> (r: Lookup)
    ensures
        match err {
            None => r is Found,
            Some(ServiceError::PermissionError(_)) => r is PasswordRefused,
            Some(ServiceError::NotFound) => r is Missing,
            Some(_) => r is Failed,
        },
{
    match err {
        None => Lookup::Found,
        Some(ServiceError::PermissionError(_)) => Lookup::PasswordRefused,
        Some(ServiceError::NotFound) => Lookup::Missing,
        Some(_) => Lookup::Failed,
    }
}

/// The status of a page that shows a stored clip: the clip, the password
/// page (unauthorized), not found, or a server error.
pub open spec fn clip_status_of(lookup: Lookup) -> u16 {
    match lookup {
        Lookup::Found => STATUS_OK,
        Lookup::PasswordRefused => STATUS_UNAUTHORIZED,
        Lookup::Missing => STATUS_NOT_FOUND,
        Lookup::Failed => STATUS_INTERNAL_SERVER_ERROR,
    }
}

/// The status of the clip page.
pub fn clip_page_status(lookup: &Lookup) -> (r: u16)
    ensures
        r == clip_status_of(*lookup),
{
    match lookup {
        Lookup::Found => STATUS_OK,
        Lookup::PasswordRefused => STATUS_UNAUTHORIZED,
        Lookup::Missing => STATUS_NOT_FOUND,
        Lookup::Failed => STATUS_INTERNAL_SERVER_ERROR,
    }
}

/// The status of the bare-content page; it answers as the clip page does.
pub fn raw_clip_status(lookup: &Lookup) -> (r: u16)
    ensures
        r == clip_status_of(*lookup),
{
    clip_page_status(lookup)
}

/// The status of a password submission: the page renders (with the clip, or
/// again with the refusal) unless the clip is missing or storage failed. A
/// submission without a usable form renders the password page again.
pub fn password_submit_status(form_given: bool, lookup: &Lookup) -> (r: u16)
    ensures
        r == if !form_given {
            STATUS_OK
        } else {
            match lookup {
                Lookup::Found | Lookup::PasswordRefused => STATUS_OK,
                Lookup::Missing => STATUS_NOT_FOUND,
                Lookup::Failed => STATUS_INTERNAL_SERVER_ERROR,
            }
        },
{
    if !form_given {
        STATUS_OK
    } else {
        match lookup {
            Lookup::Found | Lookup::PasswordRefused => STATUS_OK,
            Lookup::Missing => STATUS_NOT_FOUND,
            Lookup::Failed => STATUS_INTERNAL_SERVER_ERROR,
        }
    }
}

/// The status of posting a new clip: a redirect to the stored clip, the form
/// again when it did not validate, or a server error when storing failed.
pub fn new_clip_status(form_valid: bool, stored: bool) -> (r: u16)
    ensures
        r == if !form_valid {
            STATUS_BAD_REQUEST
        } else if stored {
            STATUS_SEE_OTHER
        } else {
            STATUS_INTERNAL_SERVER_ERROR
        },
{
    if !form_valid {
        STATUS_BAD_REQUEST
    } else if stored {
        STATUS_SEE_OTHER
    } else {
        STATUS_INTERNAL_SERVER_ERROR
    }
}

/// The body of the catcher for a status that no page handled.
pub fn catcher_text(code: u16) -> (r: &'static str)
    ensures
        code == 404 ==> r == "404",
        code == 500 ==> r == "internal server error",
        code != 404 && code != 500 ==> r == "something went wrong...",
{
    if code == 404 {
        not_found()
    } else if code == 500 {
        "internal server error"
    } else {
        "something went wrong..."
    }
}

/// The body of the not-found catcher.
pub fn not_found() -> (r: &'static str)
    ensures
        r == "404",
{
    "404"
}

/// The statuses the site has a catcher of its own for; any other status
/// falls to the default catcher.
pub fn catchers() -> (r: Vec<u16>)
    ensures
        r@ == seq![500u16, 404u16],
{
    vec![500, 404]
}

} // verus!
