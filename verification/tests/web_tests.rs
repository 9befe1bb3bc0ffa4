use blog_backend::web::error::{map_db_error, Error};
use blog_backend::web::guards::IPRestrictedGuard;
use blog_backend::web::helpers::generate_article_url;

const ALLOWED: [&str; 2] = ["127.0.0.1", "::1"];

#[test]
fn guard_lets_allowed_addresses_through() {
    let guard = IPRestrictedGuard::new(&ALLOWED);
    assert!(guard.allows(Some("127.0.0.1")));
    assert!(guard.allows(Some("::1")));
    assert!(!guard.allows(Some("127.0.0.2")));
    assert!(!guard.allows(Some("")));
    assert!(!guard.allows(None));
    let nobody = IPRestrictedGuard::new(&[]);
    assert!(!nobody.allows(Some("127.0.0.1")));
}

#[test]
fn article_url_has_three_parts() {
    assert_eq!(
        generate_article_url("https://dkvz.eu", "articles", "some_url"),
        "https://dkvz.eu/articles/some_url"
    );
    assert_eq!(generate_article_url("", "", ""), "//");
}

#[test]
fn error_texts_and_statuses() {
    let e = Error::InternalServerError("secret".to_string());
    assert_eq!((e.to_string().as_str(), e.status()), ("Internal Server Error", 500));
    let e = Error::DatabaseError("secret".to_string());
    assert_eq!((e.to_string().as_str(), e.status()), ("Database Error", 500));
    let e = Error::Forbidden("no".to_string());
    assert_eq!((e.to_string().as_str(), e.status()), ("Forbidden: no", 403));
    let e = Error::NotFound("Article does not exist".to_string());
    assert_eq!((e.to_string().as_str(), e.status()), ("Not Found: Article does not exist", 404));
    let e = Error::BadRequest("x".to_string());
    assert_eq!((e.to_string().as_str(), e.status()), ("Bad Request (check request params)", 400));
}

#[test]
fn map_db_error_wraps_the_text() {
    assert!(matches!(map_db_error("disk full"), Error::DatabaseError(text) if text == "disk full"));
    assert!(matches!(map_db_error(42), Error::DatabaseError(text) if text == "42"));
}
