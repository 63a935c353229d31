use clipstash::data::model::{
    Clip as ClipRow, GetClip as GetRow, NewClip as NewRow, UpdateClip as UpdateRow,
};
use clipstash::data::DbId;
use clipstash::domain::field::clip_id::ClipId;
use clipstash::service::action::get_clip;
use clipstash::service::ServiceError;
use clipstash::domain::field::content::Content;
use clipstash::domain::field::expires_at::ExpiresAt;
use clipstash::domain::field::hits::Hits;
use clipstash::domain::field::password::Password;
use clipstash::domain::field::posted_at::PostedAt;
use clipstash::domain::field::title::Title;
use clipstash::service::action::check_password;
use clipstash::service::ask;
use clipstash::{ClipError, ShortCode, Time};

#[test]
fn content_refuses_blank_text() {
    assert!(matches!(Content::new(""), Err(ClipError::EmptyContent)));
    assert!(matches!(Content::new("  \t\n"), Err(ClipError::EmptyContent)));
    assert!(matches!(Content::new("\u{3000}\u{a0}"), Err(ClipError::EmptyContent)));
    let c = Content::new(" content ").ok().unwrap();
    assert_eq!(c.as_str(), " content ");
    assert_eq!(c.into_inner(), " content ");
}

#[test]
fn title_drops_blank_text() {
    assert_eq!(Title::new(None).into_inner(), None);
    assert_eq!(Title::new(Some("   ".to_string())).into_inner(), None);
    assert_eq!(Title::new(Some("hi".to_string())).into_inner(), Some("hi".to_string()));
    assert_eq!(Title::from_str("x y").ok().unwrap().into_inner(), Some("x y".to_string()));
    assert_eq!(Title::default().into_inner(), None);
}

#[test]
fn password_drops_blank_text() {
    let p = Password::new(Some("123".to_owned())).ok().unwrap();
    assert!(p.has_password());
    assert_eq!(p.into_inner(), Some("123".to_string()));
    assert!(!Password::new(Some(" ".to_owned())).ok().unwrap().has_password());
    assert!(!Password::default().has_password());
}

#[test]
fn password_gate() {
    let none = Password::default();
    let p123 = Password::new(Some("123".to_owned())).ok().unwrap();
    let pabc = Password::new(Some("abc".to_owned())).ok().unwrap();
    assert!(check_password(&none, &pabc).is_ok());
    assert!(check_password(&p123, &p123.clone()).is_ok());
    assert!(check_password(&p123, &pabc).is_err());
    assert!(check_password(&p123, &none).is_err());
}

#[test]
fn expiry_from_text() {
    assert_eq!(ExpiresAt::from_str("").ok().unwrap().into_inner(), None);
    assert_eq!(ExpiresAt::from_str("  ").ok().unwrap().into_inner(), None);
    let e = ExpiresAt::from_str("2022-01-01").ok().unwrap();
    assert_eq!(e.into_inner().map(|t| t.timestamp()), Some(1_640_995_200));
    assert!(matches!(ExpiresAt::from_str("tomorrow"), Err(ClipError::DateParse(_))));
    assert_eq!(ExpiresAt::default().into_inner(), None);
}

#[test]
fn plain_fields_keep_their_values() {
    assert_eq!(Hits::new(42).into_inner(), 42);
    let t = Time::from_timestamp(1000);
    assert_eq!(PostedAt::new(t).into_inner().timestamp(), 1000);
    assert_eq!(ExpiresAt::new(Some(t)).into_inner().map(|t| t.timestamp()), Some(1000));
}

#[test]
fn generated_short_codes() {
    for _ in 0..20 {
        let c = ShortCode::new();
        assert_eq!(c.as_str().len(), 10);
        assert!(c.as_str().chars().all(|ch| "abcd1234".contains(ch)));
    }
    assert_eq!(ShortCode::default().into_inner().len(), 10);
    assert_eq!(ShortCode::from_str("xyz").ok().unwrap().as_str(), "xyz");
    assert!(ShortCode::from("q").same_as(&ShortCode::from("q".to_string())));
    assert!(!ShortCode::from("q").same_as(&ShortCode::from("r")));
}

#[test]
fn request_models() {
    let get = ask::GetClip::from_raw("abc");
    assert_eq!(get.short_code.as_str(), "abc");
    assert!(!get.password.has_password());
    assert_eq!(GetRow::from_ask(get).short_code, "abc");
    assert_eq!(GetRow::from_short_code(ShortCode::from("d")).short_code, "d");

    let req = ask::NewClip {
        content: Content::new("content").ok().unwrap(),
        title: Title::default(),
        expires_at: ExpiresAt::new(Some(Time::from_timestamp(50))),
        password: Password::new(Some("123".to_owned())).ok().unwrap(),
    };
    let row = NewRow::from_request(req, 7);
    assert_eq!(row.clip_id.len(), 36);
    assert!(DbId::from_str(&row.clip_id).is_ok());
    assert_eq!(row.short_code.len(), 10);
    assert_eq!(row.content, "content");
    assert_eq!(row.title, None);
    assert_eq!(row.posted_at, 7);
    assert_eq!(row.expires_at, Some(50));
    assert_eq!(row.password, Some("123".to_string()));

    let req = ask::UpdateClip {
        content: Content::new("new").ok().unwrap(),
        title: Title::new(Some("t".to_string())),
        expires_at: ExpiresAt::default(),
        password: Password::default(),
        short_code: ShortCode::from("code"),
    };
    let row = UpdateRow::from_request(req);
    assert_eq!(row.short_code, "code");
    assert_eq!(row.content, "new");
    assert_eq!(row.title, Some("t".to_string()));
    assert_eq!(row.expires_at, None);
    assert_eq!(row.password, None);
}

fn row(id: &str, content: &str, password: Option<&str>, hits: i64) -> ClipRow {
    ClipRow {
        clip_id: id.to_string(),
        short_code: "abcd123456".to_string(),
        content: content.to_string(),
        title: Some(" ".to_string()),
        posted_at: 100,
        expires_at: Some(200),
        password: password.map(|p| p.to_string()),
        hits,
    }
}

const ID: &str = "67e55044-10b1-426f-9247-bb680e5fe0c8";

#[test]
fn row_becomes_clip() {
    let clip = row(ID, "content", Some("123"), 9).into_clip().ok().unwrap();
    assert_eq!(clip.clip_id.into_inner().to_text(), ID);
    assert_eq!(clip.short_code.as_str(), "abcd123456");
    assert_eq!(clip.content.as_str(), "content");
    assert_eq!(clip.title.into_inner(), None);
    assert_eq!(clip.posted_at.into_inner().timestamp(), 100);
    assert_eq!(clip.expires_at.into_inner().map(|t| t.timestamp()), Some(200));
    assert_eq!(clip.password.into_inner(), Some("123".to_string()));
    assert_eq!(clip.hits.into_inner(), 9);
}

#[test]
fn bad_rows_are_refused_in_order() {
    assert!(matches!(row("nope", "", None, -1).into_clip(), Err(ClipError::Id(_))));
    assert!(matches!(row(ID, " ", None, -1).into_clip(), Err(ClipError::EmptyContent)));
    assert!(matches!(row(ID, "c", None, -1).into_clip(), Err(ClipError::Hits(_))));
}

#[test]
fn ids() {
    assert_eq!(DbId::nil().to_text(), "00000000-0000-0000-0000-000000000000");
    assert_eq!(ClipId::default().into_inner().to_text(), DbId::nil().to_text());
    let id = DbId::from_str("0123456789abcdef0123456789ABCDEF").ok().unwrap();
    assert_eq!(id.to_text(), "01234567-89ab-cdef-0123-456789abcdef");
    assert_ne!(DbId::new().to_text(), DbId::new().to_text());
    let id = DbId::from_str(ID).ok().unwrap();
    assert_eq!(ClipId::new(id).into_inner().to_text(), ID);
    assert!(DbId::from_str("12").is_err());
}

#[test]
fn protected_clip_needs_its_password() {
    let given = Password::new(Some("123".to_owned())).ok().unwrap();
    let clip = row(ID, "content", Some("123"), 0).into_clip().ok().unwrap();
    assert!(get_clip(clip, &given).is_ok());
    let clip = row(ID, "content", Some("123"), 0).into_clip().ok().unwrap();
    match get_clip(clip, &Password::default()) {
        Err(ServiceError::PermissionError(m)) => assert_eq!(m, "invalid password"),
        _ => panic!("expected a refused password"),
    }
    let clip = row(ID, "content", None, 0).into_clip().ok().unwrap();
    assert!(get_clip(clip, &given).is_ok());
}
