use portfolio::error::{
    AppError, AppErrorOptionExt, AppErrorResultExt, DatabaseError, DbErrorKind, ErrorPage,
    ErrorText, HtmlError, JsonError, LogLevel, is_unique_violation,
};
use portfolio::validation::ValidationErrors;

fn text(m: &str) -> ErrorText {
    ErrorText::new(m.to_string(), format!("{m}: cause"), format!("Debug({m})"))
}

fn db(kind: DbErrorKind, code: Option<&str>) -> DatabaseError {
    DatabaseError { kind, code: code.map(|c| c.to_string()), text: text("db") }
}

#[test]
fn constructors_keep_message() {
    let e = AppError::bad_request("bad");
    assert_eq!(e.get_user_message(), "bad");
    assert_eq!(e.get_tag(), "bad_request");
    assert_eq!(e.get_status_code(), 400);
    assert_eq!(AppError::not_found("nf").get_status_code(), 404);
    assert_eq!(AppError::not_found("nf").get_tag(), "not_found");
    assert_eq!(AppError::unauthorized("u").get_status_code(), 401);
    assert_eq!(AppError::unauthorized("u").get_tag(), "unauthorized");
    assert_eq!(AppError::conflict("c").get_status_code(), 400);
    assert_eq!(AppError::conflict("c").get_tag(), "conflict");
    assert_eq!(AppError::captcha("c").get_status_code(), 400);
    assert_eq!(AppError::captcha("c").get_tag(), "captcha_failed");
}

#[test]
fn with_source_keeps_source_and_note() {
    let e = AppError::bad_request_with_source("m", Some("note".to_string()), text("src"));
    assert_eq!(e.internal_message(), Some("note".to_string()));
    assert_eq!(e.source_error().map(|t| t.debug.clone()), Some("Debug(src)".to_string()));
    let e = AppError::not_found_with_source("m", None, text("src"));
    assert_eq!(e.internal_message(), None);
    assert!(matches!(e, AppError::NotFound { .. }));
    assert!(matches!(
        AppError::unauthorized_with_source("m", None, text("s")),
        AppError::Unauthorized { .. }
    ));
    assert!(matches!(
        AppError::conflict_with_source("m", None, text("s")),
        AppError::UniqueViolation { .. }
    ));
    assert!(matches!(
        AppError::captcha_with_source("m", None, text("s")),
        AppError::CaptchaFailed { .. }
    ));
}

#[test]
fn other_errors_hide_details_from_users() {
    let e = AppError::from_generic_error(text("boom"));
    assert_eq!(e.get_user_message(), "something went wrong");
    assert_eq!(e.get_status_code(), 500);
    assert_eq!(e.get_tag(), "other");
    assert_eq!(e.internal_message(), Some("boom: cause".to_string()));
    assert_eq!(e.to_display_string(), "boom");
}

#[test]
fn validation_error_reply() {
    let mut errs = ValidationErrors::new();
    errs.add("name", "length", None);
    errs.add("email", "email", Some("provide a valid email"));
    let e = AppError::Validation(errs);
    assert_eq!(e.get_tag(), "validation");
    assert_eq!(e.get_status_code(), 400);
    assert_eq!(e.get_user_message(), "provide a valid email");
    assert_eq!(
        e.to_display_string(),
        "name: Validation error: length [{}]\nemail: provide a valid email"
    );
}

#[test]
fn log_record_levels_and_lines() {
    let r = AppError::from_generic_error(text("boom")).log_record();
    assert!(matches!(r.level, LogLevel::Error));
    assert_eq!(r.line, "AppError [other]: boom: cause | source: Debug(boom)");
    let r = AppError::not_found("gone").log_record();
    assert!(matches!(r.level, LogLevel::Warn));
    assert_eq!(r.line, "AppError [not_found]: gone");
    let r = AppError::bad_request_with_source("m", Some("note".to_string()), text("s")).log_record();
    assert_eq!(r.line, "AppError [bad_request]: note | source: Debug(s)");
}

#[test]
fn database_errors_map_to_kinds() {
    let e = AppError::from_database_error(db(DbErrorKind::RowNotFound, None));
    assert!(matches!(&e, AppError::NotFound { user_message, .. } if user_message == "record not found"));
    let e = AppError::from_database_error(db(DbErrorKind::Database, Some("23505")));
    assert!(matches!(&e, AppError::UniqueViolation { user_message, .. } if user_message == "unique violation"));
    let e = AppError::from_database_error(db(DbErrorKind::Database, Some("23503")));
    assert!(matches!(e, AppError::Other(_)));
    let e = AppError::from_database_error(db(DbErrorKind::Other, Some("23505")));
    assert!(matches!(e, AppError::Other(_)));
}

#[test]
fn unique_violation_needs_postgres_code() {
    assert!(is_unique_violation(&db(DbErrorKind::Database, Some("23505"))));
    assert!(!is_unique_violation(&db(DbErrorKind::Database, None)));
    assert!(!is_unique_violation(&db(DbErrorKind::RowNotFound, Some("23505"))));
}

#[test]
fn html_error_pages() {
    let h = HtmlError::from(AppError::not_found("x"));
    assert!(matches!(h.page(), ErrorPage::NotFound));
    assert_eq!(h.status_code(), 404);
    let h = HtmlError::from(AppError::bad_request("x"));
    assert!(matches!(h.page(), ErrorPage::ServerError));
    assert_eq!(h.status_code(), 400);
}

#[test]
fn json_error_reply() {
    let r = JsonError::from(AppError::unauthorized("password is incorrect")).reply();
    assert_eq!(r.status_code, 401);
    assert_eq!(r.status, "unauthorized");
    assert_eq!(r.message, "password is incorrect");
}

#[test]
fn option_ext() {
    assert!(matches!(Some(3).not_found_msg("m"), Ok(3)));
    assert!(matches!(None::<u8>.not_found_msg("m"), Err(AppError::NotFound { user_message, .. }) if user_message == "m"));
    assert!(matches!(None::<u8>.bad_request_msg("m"), Err(AppError::BadRequest { .. })));
    assert!(matches!(None::<u8>.unauthorized_msg("m"), Err(AppError::Unauthorized { .. })));
    assert!(matches!(None::<u8>.captcha_msg("m"), Err(AppError::CaptchaFailed { .. })));
    assert!(matches!(Some(1).captcha_msg("m"), Ok(1)));
}

#[test]
fn result_ext() {
    let ok: Result<u8, ErrorText> = Ok(4);
    assert!(matches!(ok.into_conflict(), Ok(4)));
    let err: Result<u8, ErrorText> = Err(text("why"));
    assert!(matches!(err.into_bad_request(), Err(AppError::BadRequest { user_message, .. }) if user_message == "why"));
    assert!(matches!(Err::<u8, _>(text("w")).into_not_found(), Err(AppError::NotFound { .. })));
    assert!(matches!(Err::<u8, _>(text("w")).into_conflict(), Err(AppError::UniqueViolation { .. })));
    assert!(matches!(Err::<u8, _>(text("w")).into_unauthorized(), Err(AppError::Unauthorized { .. })));
    assert!(matches!(Err::<u8, _>(text("w")).into_captcha(), Err(AppError::CaptchaFailed { .. })));
}
