//! Exact values for the error taxonomy mapping, the response envelope,
//! and the creation helpers.

use shortlink::errors::AppError;
use shortlink::models::ApiResponse;
use shortlink::service::{complete_create, check_liveness, format_short_url, is_unique_violation, validate_url};
use shortlink::store::InsertOutcome;

#[test]
fn status_codes_follow_the_taxonomy() {
    assert_eq!(AppError::Validation("bad".to_string()).http_status(), 400);
    assert_eq!(AppError::NotFound.http_status(), 404);
    assert_eq!(AppError::Conflict.http_status(), 409);
    assert_eq!(AppError::Gone.http_status(), 410);
    assert_eq!(AppError::Database("boom".to_string()).http_status(), 500);
    assert_eq!(AppError::Internal.http_status(), 500);
}

#[test]
fn machine_codes_are_stable() {
    assert_eq!(AppError::Validation("bad".to_string()).code_label(), "VALIDATION_ERROR");
    assert_eq!(AppError::NotFound.code_label(), "NOT_FOUND");
    assert_eq!(AppError::Conflict.code_label(), "CONFLICT");
    assert_eq!(AppError::Gone.code_label(), "GONE");
    assert_eq!(AppError::Database("boom".to_string()).code_label(), "INTERNAL_ERROR");
    assert_eq!(AppError::Internal.code_label(), "INTERNAL_ERROR");
}

#[test]
fn store_causes_never_reach_the_client() {
    let e = AppError::Database("connection refused at 10.0.0.5".to_string());
    assert_eq!(e.client_message(), "internal error");
    let body = e.api_body();
    assert_eq!(body.code, "INTERNAL_ERROR");
    assert_eq!(body.message, "internal error");
}

#[test]
fn client_messages_are_actionable() {
    assert_eq!(AppError::Validation("invalid URL".to_string()).client_message(), "invalid URL");
    assert_eq!(AppError::NotFound.client_message(), "not found");
    assert_eq!(AppError::Conflict.client_message(), "already exists");
    assert_eq!(AppError::Gone.client_message(), "link expired");
    assert_eq!(AppError::Internal.client_message(), "internal error");
}

#[test]
fn envelope_has_exactly_one_side() {
    let ok: ApiResponse<u32> = ApiResponse::success(Some(7));
    assert!(ok.success);
    assert_eq!(ok.data, Some(7));
    assert!(ok.error.is_none());

    let err: ApiResponse<u32> = ApiResponse::error("CONFLICT".to_string(), "already exists".to_string());
    assert!(!err.success);
    assert!(err.data.is_none());
    let detail = err.error.expect("an error envelope carries the detail");
    assert_eq!(detail.code, "CONFLICT");
    assert_eq!(detail.message, "already exists");
}

#[test]
fn short_urls_join_base_and_code() {
    assert_eq!(format_short_url("abc"), "http://localhost:8080/abc");
    assert_eq!(format_short_url(""), "http://localhost:8080/");
}

#[test]
fn complete_create_maps_every_outcome() {
    let ok = complete_create("c0de".to_string(), InsertOutcome::Inserted(7));
    let resp = ok.unwrap();
    assert_eq!(resp.short_code, "c0de");
    assert_eq!(resp.url, "http://localhost:8080/c0de");

    let dup = complete_create("c0de".to_string(), InsertOutcome::DuplicateCode);
    assert!(matches!(dup, Err(AppError::Conflict)));

    let failed = complete_create("c0de".to_string(), InsertOutcome::Failed("disk full".to_string()));
    match failed {
        Err(AppError::Database(cause)) => assert_eq!(cause, "disk full"),
        _ => panic!("expected a database error"),
    }
}

#[test]
fn unique_violations_are_recognized() {
    assert!(is_unique_violation(Some("links_short_code_key"), "duplicate key"));
    assert!(is_unique_violation(Some("some_unique_idx"), "duplicate key"));
    assert!(is_unique_violation(None, "duplicate key value violates unique constraint \"k\""));
    assert!(!is_unique_violation(None, "connection reset by peer"));
    assert!(!is_unique_violation(Some("links_pkey"), "deadlock detected"));
}

#[test]
fn liveness_is_strict() {
    assert!(check_liveness(None, 100).is_ok());
    assert!(check_liveness(Some(100), 100).is_ok());
    assert!(check_liveness(Some(101), 100).is_ok());
    assert!(matches!(check_liveness(Some(99), 100), Err(AppError::Gone)));
}

#[test]
fn validation_trims_before_judging() {
    assert_eq!(validate_url("  https://example.com/x  ").unwrap(), "https://example.com/x");
    assert_eq!(validate_url("\t\nhttp://ab\u{3000}").unwrap(), "http://ab");
    assert!(matches!(validate_url("        "), Err(AppError::Validation(_))));
    assert!(matches!(validate_url("ftp://example.com"), Err(AppError::Validation(_))));
    assert!(matches!(validate_url("http:/x"), Err(AppError::Validation(_))));
    // Exactly eight characters with the prefix is enough.
    assert_eq!(validate_url("http://a").unwrap(), "http://a");
}
