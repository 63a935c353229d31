use vstd::prelude::*;
use base64::Engine as _;

use crate::domain::clip::is_clip_error_text;
use vstd::string::StringExecFns;
use crate::service::ServiceError;
use crate::web::http::Method;

verus! {

/// The request header that carries an API key.
pub const API_KEY_HEADER: &'static str = "x-api-key";

/// Number of random bytes in a new API key.
pub const API_KEY_LEN: usize = 16;

/// The character of the URL-safe base64 alphabet for `x`, for `0 <= x < 64`:
/// `A`-`Z`, `a`-`z`, `0`-`9`, `-`, `_`.
pub open spec fn b64_char(x: int) -> char {
    if x < 26 {
        (x + 65) as u8 as char
    } else if x < 52 {
        (x + 71) as u8 as char
    } else if x < 62 {
        (x - 4) as u8 as char
    } else if x == 62 {
        '-'
    } else {
        '_'
    }
}

/// The padded URL-safe base64 text of the bytes: each group of three bytes
/// gives four characters of six bits each; a last group of one or two bytes
/// is padded with zero bits and then with `=` up to four characters.
pub open spec fn url_safe_base64(b: Seq<u8>) -> Seq<char>
    decreases b.len(),
{
    let b0 = if b.len() > 0 { b[0] as int } else { 0 };
    let b1 = if b.len() > 1 { b[1] as int } else { 0 };
    let b2 = if b.len() > 2 { b[2] as int } else { 0 };
    if b.len() == 0 {
        Seq::empty()
    } else if b.len() == 1 {
        seq![b64_char(b0 / 4), b64_char((b0 % 4) * 16), '=', '=']
    } else if b.len() == 2 {
        seq![b64_char(b0 / 4), b64_char((b0 % 4) * 16 + b1 / 16), b64_char((b1 % 16) * 4), '=']
    } else {
        seq![
            b64_char(b0 / 4),
            b64_char((b0 % 4) * 16 + b1 / 16),
            b64_char((b1 % 16) * 4 + b2 / 64),
            b64_char(b2 % 64),
        ] + url_safe_base64(b.skip(3))
    }
}

proof fn lemma_base64_len(b: Seq<u8>)
    ensures
        url_safe_base64(b).len() == 4 * ((b.len() + 2) / 3),
    decreases b.len(),
{
    if b.len() > 2 {
        lemma_base64_len(b.skip(3));
    }
}

/// The bytes whose padded URL-safe base64 text this is; `None` when it is not
/// such a text.
pub uninterp spec fn url_safe_base64_decoded(s: Seq<char>) -> Option<Seq<u8>>;

/// Relies on base64's `URL_SAFE` engine `encode`: the padded URL-safe text.
/// The engine panics when the text's length, four characters for each
/// started group of three bytes, does not fit in a `usize`.
#[verifier::external_body]
fn encode_url_safe(b: &[u8]) -> (r: String)
    requires
        4 * ((b@.len() + 2) / 3) <= usize::MAX,
    ensures
        r@ == url_safe_base64(b@),
{
    base64::engine::general_purpose::URL_SAFE.encode(b)
}

#[verifier::external_type_specification]
#[verifier::external_body]
pub struct ExDecodeError(base64::DecodeError);

/// Relies on base64's `URL_SAFE` engine `decode`.
#[verifier::external_body]
fn decode_url_safe(s: &str) -> (r: Result<Vec<u8>, base64::DecodeError>)
    ensures
        match r {
            Ok(b) => url_safe_base64_decoded(s@) == Some(b@),
            Err(_) => url_safe_base64_decoded(s@) is None,
        },
{
    base64::engine::general_purpose::URL_SAFE.decode(s)
}


/// Relies on rand's `random`: a value drawn from the thread-local generator,
/// of which nothing is promised.
pub assume_specification<T>[ rand::random::<T> ]() -> (r: T)
    where
        rand::distributions::Standard: rand::distributions::Distribution<T>,
;

/// Why an API key was refused.
#[derive(Debug)]
pub enum ApiKeyError {
    NotFound(String),
    DecodeError(String),
}

/// Why an API request failed.
#[derive(Debug)]
pub enum ApiError {
    NotFound(String),
    Server(String),
    User(String),
    KeyError(ApiKeyError),
}

/// A key that grants access to the API.
#[derive(Debug)]
pub struct ApiKey(Vec<u8>);

impl View for ApiKey {
    type V = Seq<u8>;

    closed spec fn view(&self) -> Seq<u8> {
        self.0@
    }
}

impl ApiKey {
    /// The key as padded URL-safe base64 text.
    pub fn to_base64(&self) -> (r: String)
        requires
            4 * ((self@.len() + 2) / 3) <= usize::MAX,
        ensures
            r@ == url_safe_base64(self@),
            r@.len() == 4 * ((self@.len() + 2) / 3),
    {
        proof {
            lemma_base64_len(self@);
        }
        encode_url_safe(self.0.as_slice())
    }

    pub fn into_inner(self) -> (r: Vec<u8>)
        ensures
            r@ == self@,
    {
        self.0
    }

    /// The key that this padded URL-safe base64 text encodes.
    pub fn from_str(key: &str) -> (r: Result<Self, ApiKeyError>)
        ensures
            match r {
                Ok(k) => url_safe_base64_decoded(key@) == Some(k@),
                Err(e) => e is DecodeError && url_safe_base64_decoded(key@) is None,
            },
    {
        match decode_url_safe(key) {
            Ok(bytes) => Ok(ApiKey(bytes)),
            Err(err) => Err(ApiKeyError::DecodeError(err.to_string())),
        }
    }
}

impl Clone for ApiKey {
    fn clone(&self) -> (r: Self)
        ensures
            r@ == self@,
    {
        ApiKey(self.0.clone())
    }
}

impl Default for ApiKey {
    /// A fresh key of `API_KEY_LEN` random bytes.
    fn default() -> (r: Self)
        ensures
            r@.len() == API_KEY_LEN as int,
    {
        let mut key: Vec<u8> = Vec::new();
        let mut n: usize = 0;
        while n < API_KEY_LEN
            invariant
                n <= API_KEY_LEN,
                key@.len() == n,
            decreases API_KEY_LEN - n,
        {
            key.push(rand::random::<u8>());
            n = n + 1;
        }
        ApiKey(key)
    }
}

impl ApiError {
    /// The API's answer to a failed service request: a clip that could not be
    /// read is the caller's error, a missing clip is not found, a storage
    /// failure is the server's, and a refused password is the caller's.
    pub fn from_service_error(err: ServiceError) -> (r: Self)
        ensures
            match err {
                ServiceError::Clip(e) => r matches ApiError::User(t) && exists|d: Seq<char>|
                    t@ == "clip parsing error: "@ + d && is_clip_error_text(e, d),
                ServiceError::NotFound => r matches ApiError::NotFound(m) && m@ == "not found"@,
                ServiceError::Data(_) => r matches ApiError::Server(m) && m@
                    == "a server error occurred"@,
                ServiceError::PermissionError(m) => r matches ApiError::User(t) && t@ == m@,
            },
    {
        match err {
            ServiceError::Clip(err) => {
                let mut text = "clip parsing error: ".to_string();
                let detail = err.to_text();
                text.append(detail.as_str());
                ApiError::User(text)
            },
            ServiceError::NotFound => ApiError::NotFound("not found".to_string()),
            ServiceError::Data(_) => ApiError::Server("a server error occurred".to_string()),
            ServiceError::PermissionError(err) => ApiError::User(err),
        }
    }
}

impl ApiError {
    /// The HTTP status the error is answered with.
    pub fn status(&self) -> (r: u16)
        ensures
            r == match self {
                ApiError::NotFound(_) => 404u16,
                ApiError::Server(_) => 500u16,
                ApiError::User(_) | ApiError::KeyError(_) => 400u16,
            },
    {
        match self {
            ApiError::NotFound(_) => 404,
            ApiError::Server(_) => 500,
            ApiError::User(_) | ApiError::KeyError(_) => 400,
        }
    }
}

/// The key a request carries in its `API_KEY_HEADER`: refused as not found
/// when the header is missing, and as malformed when it is not padded
/// URL-safe base64. Whether the key is stored is asked of storage next.
pub fn key_from_header(header: Option<&str>) -> (r: Result<ApiKey, ApiError>)
    ensures
        match header {
            None => r matches Err(ApiError::KeyError(ApiKeyError::NotFound(m))) && m@
                == "API key not found"@,
            Some(h) => match url_safe_base64_decoded(h@) {
                Some(b) => r matches Ok(k) && k@ == b,
                None => r matches Err(ApiError::KeyError(e)) && e is DecodeError,
            },
        },
{
    match header {
        None => Err(ApiError::KeyError(ApiKeyError::NotFound("API key not found".to_string()))),
        Some(h) => match ApiKey::from_str(h) {
            Ok(key) => Ok(key),
            Err(e) => Err(ApiError::KeyError(e)),
        },
    }
}

/// The verdict on a well-formed key, given what storage said of it: `Some`
/// of whether it is stored, or `None` when storage failed.
pub fn key_verdict(key: ApiKey, stored: Option<bool>) -> (r: Result<ApiKey, ApiError>)
    ensures
        match stored {
            Some(true) => r matches Ok(k) && k@ == key@,
            Some(false) => r matches Err(ApiError::KeyError(ApiKeyError::NotFound(m))) && m@
                == "API key not found"@,
            None => r matches Err(ApiError::Server(m)) && m@ == "server error"@,
        },
{
    match stored {
        Some(true) => Ok(key),
        Some(false) => Err(ApiError::KeyError(ApiKeyError::NotFound("API key not found".to_string()))),
        None => Err(ApiError::Server("server error".to_string())),
    }
}

/// The route table of the API: each request's method and path pattern.
pub fn routes() -> (r: Vec<(Method, &'static str)>)
    ensures
        r@ == seq![
            (Method::Get, "/<short_code>"),
            (Method::Post, "/"),
            (Method::Put, "/"),
            (Method::Get, "/key"),
        ],
{
    vec![(Method::Get, "/<short_code>"), (Method::Post, "/"), (Method::Put, "/"), (Method::Get, "/key")]
}

/// The body of the API's catcher for a status that no request handled.
pub fn catcher_text(code: u16) -> (r: &'static str)
    ensures
        r == (if code == 500 {
            "internal server error"
        } else if code == 404 {
            "404"
        } else if code == 401 {
            "request error"
        } else if code == 400 {
            "invalid api key"
        } else {
            "something went wrong..."
        }),
{
    if code == 500 {
        "internal server error"
    } else if code == 404 {
        not_found()
    } else if code == 401 {
        request_error()
    } else if code == 400 {
        invalid_api_key()
    } else {
        "something went wrong..."
    }
}

/// The body of the API's not-found catcher.
pub fn not_found() -> (r: &'static str)
    ensures
        r == "404",
{
    "404"
}

/// The body of the API's catcher for unauthorized requests.
pub fn request_error() -> (r: &'static str)
    ensures
        r == "request error",
{
    "request error"
}

/// The body of the API's catcher for bad requests, such as a malformed key.
pub fn invalid_api_key() -> (r: &'static str)
    ensures
        r == "invalid api key",
{
    "invalid api key"
}

/// The statuses the API has a catcher of its own for; any other status falls
/// to the default catcher.
pub fn catchers() -> (r: Vec<u16>)
    ensures
        r@ == seq![500u16, 404u16, 401u16, 400u16],
{
    vec![500, 404, 401, 400]
}

} // verus!
