use clipstash::domain::field::password::Password;
use clipstash::service::action::check_password;
use clipstash::web::http::{
    catcher_text, catchers, clip_page_status, dispatch, lookup_of, new_clip_status,
    password_submit_status, raw_clip_status, routes, status_without_storage, Lookup, Method, Route,
    STATUS_BAD_REQUEST, STATUS_INTERNAL_SERVER_ERROR, STATUS_NOT_FOUND, STATUS_OK,
    STATUS_SEE_OTHER, STATUS_UNAUTHORIZED,
};
use clipstash::web::{api, PASSWORD_COOKIE};

/// The status of a request on a site holding one clip under `code`, protected
/// by `stored`, when the reader gives `given`.
fn status(method: Method, path: &str, code: &str, stored: &Password, given: &Password) -> u16 {
    let route = dispatch(method, path);
    if let Some(s) = status_without_storage(&route) {
        return s;
    }
    let lookup = |c: &str| {
        if c != code {
            Lookup::Missing
        } else {
            lookup_of(&check_password(stored, given).err())
        }
    };
    match route {
        Some(Route::GetClip(c)) => clip_page_status(&lookup(c.as_str())),
        Some(Route::GetRawClip(c)) => raw_clip_status(&lookup(c.as_str())),
        Some(Route::SubmitClipPassword(c)) => password_submit_status(true, &lookup(c.as_str())),
        _ => panic!("unexpected route"),
    }
}

#[test]
fn gets_home() {
    let route = dispatch(Method::Get, "/");
    assert!(matches!(route, Some(Route::Home)));
    assert_eq!(status_without_storage(&route), Some(STATUS_OK));
}

#[test]
fn error_on_missing_clip() {
    let route = dispatch(Method::Get, "/clip/not_found");
    assert!(route.is_none());
    assert_eq!(status_without_storage(&route), Some(STATUS_NOT_FOUND));
}

#[test]
fn requires_password_when_applicable() {
    let code = "abcd123456";
    let stored = Password::new(Some("123".to_owned())).ok().unwrap();
    let none = Password::default();
    let right = Password::new(Some("123".to_owned())).ok().unwrap();
    let wrong = Password::new(Some("abc".to_owned())).ok().unwrap();

    let response = status(Method::Get, &format!("/clip/{}", code), code, &stored, &none);
    assert_eq!(response, STATUS_NOT_FOUND);

    let response = status(Method::Get, &format!("/clip/raw/{}", code), code, &stored, &none);
    assert_eq!(response, STATUS_UNAUTHORIZED);

    let response = status(Method::Post, &format!("/clip/{}", code), code, &stored, &right);
    assert_eq!(response, STATUS_OK);

    let response = status(Method::Get, &format!("/clip/raw/{}", code), code, &stored, &right);
    assert_eq!(response, STATUS_OK);

    let response = status(Method::Get, &format!("/clip/raw/{}", code), code, &stored, &wrong);
    assert_eq!(response, STATUS_UNAUTHORIZED);
}

#[test]
fn dispatch_reads_the_code_from_the_path() {
    match dispatch(Method::Get, "/abc") {
        Some(Route::GetClip(c)) => assert_eq!(c.as_str(), "abc"),
        _ => panic!("expected the clip page"),
    }
    match dispatch(Method::Post, "/clip/xyz") {
        Some(Route::SubmitClipPassword(c)) => assert_eq!(c.as_str(), "xyz"),
        _ => panic!("expected the password form"),
    }
    match dispatch(Method::Get, "/clip/raw/q1") {
        Some(Route::GetRawClip(c)) => assert_eq!(c.as_str(), "q1"),
        _ => panic!("expected the raw page"),
    }
    assert!(matches!(dispatch(Method::Post, "/"), Some(Route::NewClip)));
    assert!(dispatch(Method::Put, "/").is_none());
    assert!(dispatch(Method::Get, "").is_none());
    assert!(dispatch(Method::Get, "/a/").is_none());
    assert!(dispatch(Method::Post, "/clip/").is_none());
    assert!(dispatch(Method::Get, "/clip/raw/a/b").is_none());
}

#[test]
fn page_statuses() {
    assert_eq!(clip_page_status(&Lookup::Found), STATUS_OK);
    assert_eq!(clip_page_status(&Lookup::PasswordRefused), STATUS_UNAUTHORIZED);
    assert_eq!(clip_page_status(&Lookup::Missing), STATUS_NOT_FOUND);
    assert_eq!(clip_page_status(&Lookup::Failed), STATUS_INTERNAL_SERVER_ERROR);
    assert_eq!(password_submit_status(false, &Lookup::Missing), STATUS_OK);
    assert_eq!(password_submit_status(true, &Lookup::PasswordRefused), STATUS_OK);
    assert_eq!(password_submit_status(true, &Lookup::Missing), STATUS_NOT_FOUND);
    assert_eq!(new_clip_status(false, false), STATUS_BAD_REQUEST);
    assert_eq!(new_clip_status(true, true), STATUS_SEE_OTHER);
    assert_eq!(new_clip_status(true, false), STATUS_INTERNAL_SERVER_ERROR);
}

#[test]
fn route_tables_and_catchers() {
    assert_eq!(routes().len(), 5);
    assert_eq!(routes()[4], (Method::Get, "/clip/raw/<short_code>"));
    assert_eq!(catchers(), vec![500, 404]);
    assert_eq!(catcher_text(404), "404");
    assert_eq!(catcher_text(500), "internal server error");
    assert_eq!(catcher_text(418), "something went wrong...");
    assert_eq!(api::routes()[3], (Method::Get, "/key"));
    assert_eq!(api::catchers(), vec![500, 404, 401, 400]);
    assert_eq!(api::catcher_text(401), "request error");
    assert_eq!(api::catcher_text(400), api::invalid_api_key());
    assert_eq!(api::not_found(), "404");
    assert_eq!(api::request_error(), "request error");
    assert_eq!(PASSWORD_COOKIE, "password-protected-clip");
}
