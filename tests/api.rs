use clipstash::data::query::{key_is_stored, RevocationStatus};
use clipstash::domain::clip::ClipError;
use clipstash::service::ServiceError;
use clipstash::web::api::{key_from_header, key_verdict, ApiError, ApiKey, ApiKeyError};

#[test]
fn api_key_base64_round_trip() {
    assert_eq!(ApiKey::from_str("").ok().unwrap().to_base64(), "");
    assert_eq!(ApiKey::from_str("YQ==").ok().unwrap().to_base64(), "YQ==");
    assert_eq!(ApiKey::from_str("YWJj").ok().unwrap().into_inner(), b"abc".to_vec());
    let key = ApiKey::from_str("aGVsbG8=").ok().unwrap();
    assert_eq!(key.clone().into_inner(), b"hello".to_vec());
    assert_eq!(key.to_base64(), "aGVsbG8=");
}

#[test]
fn api_key_uses_url_safe_alphabet() {
    let key = ApiKey::from_str("-_8=").ok().unwrap();
    assert_eq!(key.clone().into_inner(), vec![0xfb, 0xff]);
    assert_eq!(key.to_base64(), "-_8=");
    assert!(matches!(ApiKey::from_str("+/8="), Err(ApiKeyError::DecodeError(_))));
    assert!(matches!(ApiKey::from_str("not base64!"), Err(ApiKeyError::DecodeError(_))));
}

#[test]
fn new_api_keys_are_random_sixteen_bytes() {
    let a = ApiKey::default();
    let b = ApiKey::default();
    assert_eq!(a.to_base64().len(), 24);
    assert_eq!(a.clone().into_inner().len(), 16);
    assert_ne!(a.into_inner(), b.into_inner());
}

#[test]
fn revocation_status() {
    assert!(RevocationStatus::from_rows_affected(0) == RevocationStatus::NotFound);
    assert!(RevocationStatus::from_rows_affected(2) == RevocationStatus::Revoked);
    assert!(!key_is_stored(0));
    assert!(key_is_stored(1));
}

#[test]
fn service_errors_as_api_errors() {
    match ApiError::from_service_error(ServiceError::Clip(ClipError::EmptyContent)) {
        ApiError::User(m) => assert_eq!(m, "clip parsing error: empty content"),
        _ => panic!("expected a user error"),
    }
    match ApiError::from_service_error(ServiceError::Clip(ClipError::InvalidTitle("t".to_string()))) {
        ApiError::User(m) => assert_eq!(m, "clip parsing error: invalid title: t"),
        _ => panic!("expected a user error"),
    }
    match ApiError::from_service_error(ServiceError::NotFound) {
        ApiError::NotFound(m) => assert_eq!(m, "not found"),
        _ => panic!("expected not found"),
    }
    match ApiError::from_service_error(ServiceError::Data("disk".to_string())) {
        ApiError::Server(m) => assert_eq!(m, "a server error occurred"),
        _ => panic!("expected a server error"),
    }
    match ApiError::from_service_error(ServiceError::PermissionError("invalid password".to_string())) {
        ApiError::User(m) => assert_eq!(m, "invalid password"),
        _ => panic!("expected a user error"),
    }
}

#[test]
fn clip_error_text() {
    assert_eq!(ClipError::InvalidPassword("x".to_string()).to_text(), "invalid password: x");
    assert_eq!(ClipError::InvalidTitle("y".to_string()).to_text(), "invalid title: y");
    assert_eq!(ClipError::InvalidDate("z".to_string()).to_text(), "invalid date: z");
    assert_eq!(ClipError::EmptyContent.to_text(), "empty content");
    let refused = clipstash::data::DbId::from_str("x").err().unwrap();
    assert!(ClipError::Id(refused).to_text().starts_with("id parse error: "));
}

#[test]
fn api_key_header_checks() {
    match key_from_header(None) {
        Err(ApiError::KeyError(ApiKeyError::NotFound(m))) => assert_eq!(m, "API key not found"),
        _ => panic!("expected a missing key"),
    }
    assert!(matches!(
        key_from_header(Some("***")),
        Err(ApiError::KeyError(ApiKeyError::DecodeError(_)))
    ));
    let key = key_from_header(Some("aGVsbG8=")).ok().unwrap();
    assert_eq!(key.clone().into_inner(), b"hello".to_vec());

    assert!(key_verdict(key.clone(), Some(true)).is_ok());
    let refused = key_verdict(key.clone(), Some(false)).err().unwrap();
    assert_eq!(refused.status(), 400);
    assert!(matches!(refused, ApiError::KeyError(ApiKeyError::NotFound(_))));
    let failed = key_verdict(key, None).err().unwrap();
    assert_eq!(failed.status(), 500);
    assert_eq!(ApiError::NotFound("x".to_string()).status(), 404);
}
