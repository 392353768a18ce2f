//! End-to-end scenarios for link creation and resolution against the
//! in-memory store.

use shortlink::errors::AppError;
use shortlink::service::{create, resolve};
use shortlink::store::LinkStore;

fn code_char_ok(c: char) -> bool {
    c.is_ascii_lowercase() || c.is_ascii_uppercase() || c.is_ascii_digit() || c == '-' || c == '_'
}

#[test]
fn create_generates_fixed_length_code() {
    let mut store = LinkStore::new();
    let r = create(&mut store, "https://example.com/page", None, 1_000);
    let resp = r.expect("a valid URL with no custom code must create a link");
    assert_eq!(resp.short_code.len(), 8);
    assert!(resp.short_code.chars().all(code_char_ok));
    assert_eq!(resp.url, format!("http://localhost:8080/{}", resp.short_code));

    let target = resolve(&mut store, &resp.short_code, 2_000);
    assert_eq!(target.unwrap(), "https://example.com/page");

    let missing = resolve(&mut store, "doesnotexist", 2_000);
    assert!(matches!(missing, Err(AppError::NotFound)));
}

#[test]
fn two_generated_codes_usually_differ() {
    let mut store = LinkStore::new();
    let a = create(&mut store, "https://example.com/a", None, 1).unwrap();
    let b = create(&mut store, "https://example.com/b", None, 2).unwrap();
    assert_ne!(a.short_code, b.short_code);
}

#[test]
fn custom_code_reuse_conflicts() {
    let mut store = LinkStore::new();
    let first = create(&mut store, "http://x.com/a", Some("abc123".to_string()), 10);
    let resp = first.unwrap();
    assert_eq!(resp.short_code, "abc123");
    assert_eq!(resp.url, "http://localhost:8080/abc123");

    let second = create(&mut store, "http://y.com/b", Some("abc123".to_string()), 20);
    assert!(matches!(second, Err(AppError::Conflict)));
    assert_eq!(store.link_count(), 1);
}

#[test]
fn unknown_and_inactive_codes_are_indistinguishable() {
    let mut store = LinkStore::new();
    let never = resolve(&mut store, "nevermade", 5);
    assert!(matches!(never, Err(AppError::NotFound)));

    create(&mut store, "https://example.com/gone-dark", Some("dark".to_string()), 5).unwrap();
    assert!(store.deactivate("dark"));
    let hidden = resolve(&mut store, "dark", 6);
    assert!(matches!(hidden, Err(AppError::NotFound)));
}

#[test]
fn expired_link_is_gone_not_not_found() {
    let mut store = LinkStore::new();
    create(&mut store, "https://example.com/old", Some("old1".to_string()), 100).unwrap();
    assert!(store.set_expiry("old1", Some(500)));

    let gone = resolve(&mut store, "old1", 501);
    assert!(matches!(gone, Err(AppError::Gone)));

    // Expiry is strict: a link expiring exactly now still resolves.
    let at_boundary = resolve(&mut store, "old1", 500);
    assert_eq!(at_boundary.unwrap(), "https://example.com/old");

    let before = resolve(&mut store, "old1", 499);
    assert_eq!(before.unwrap(), "https://example.com/old");
}

#[test]
fn resolve_returns_exact_url_and_records_one_click() {
    let mut store = LinkStore::new();
    create(&mut store, "https://example.com/target", Some("clickme".to_string()), 10).unwrap();
    assert_eq!(store.click_count(), 0);

    let r = resolve(&mut store, "clickme", 20);
    assert_eq!(r.unwrap(), "https://example.com/target");
    assert_eq!(store.click_count(), 1);
    let click = store.click_at(0);
    assert_eq!(click.link_id, 0);
    assert_eq!(click.occurred_at, 20);

    let again = resolve(&mut store, "clickme", 30);
    assert_eq!(again.unwrap(), "https://example.com/target");
    assert_eq!(store.click_count(), 2);
}

#[test]
fn click_log_failure_does_not_change_redirect() {
    let mut store = LinkStore::new();
    create(&mut store, "https://example.com/robust", Some("robust".to_string()), 10).unwrap();
    store.set_click_log_available(false);

    let r = resolve(&mut store, "robust", 20);
    assert_eq!(r.unwrap(), "https://example.com/robust");
    assert_eq!(store.click_count(), 0);

    store.set_click_log_available(true);
    let r2 = resolve(&mut store, "robust", 30);
    assert_eq!(r2.unwrap(), "https://example.com/robust");
    assert_eq!(store.click_count(), 1);
}

#[test]
fn validation_rejects_bad_urls() {
    let mut store = LinkStore::new();

    let no_scheme = create(&mut store, "ftp://example.com/file", None, 1);
    match no_scheme {
        Err(AppError::Validation(msg)) => assert_eq!(msg, "invalid URL"),
        _ => panic!("expected a validation error"),
    }

    let too_short = create(&mut store, "http:/x", None, 1);
    assert!(matches!(too_short, Err(AppError::Validation(_))));

    // Validation judges the trimmed string; whitespace alone cannot
    // rescue a short URL, and padding cannot break a good one.
    let padded_short = create(&mut store, "   http:/x   ", None, 1);
    assert!(matches!(padded_short, Err(AppError::Validation(_))));
    assert_eq!(store.link_count(), 0);

    let padded_good = create(
        &mut store,
        "   https://example.com/padded   ",
        Some("padme".to_string()),
        1,
    );
    assert!(padded_good.is_ok());
    let r = resolve(&mut store, "padme", 2);
    assert_eq!(r.unwrap(), "https://example.com/padded");
}

#[test]
fn creation_never_writes_a_click() {
    let mut store = LinkStore::new();
    create(&mut store, "https://example.com/quiet", Some("quiet".to_string()), 1).unwrap();
    assert_eq!(store.click_count(), 0);
}
