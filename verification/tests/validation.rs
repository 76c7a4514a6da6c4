use portfolio::config::env::Env;
use portfolio::model::cdn;
use portfolio::model::contact::ContactUs;
use portfolio::model::metadata::GetVideoMetadata;
use portfolio::model::newsletter::SignUp;
use portfolio::model::post::{AddPost, DelPost, EditPost};
use portfolio::model::r2;
use portfolio::model::short::{AddShort, AddShortAPI, DelShort, ShortKey};
use portfolio::validation::{ValidationError, ValidationErrors};

fn fields(e: &ValidationErrors) -> Vec<String> {
    e.errors.iter().map(|f| f.field.clone()).collect()
}

fn ok_slug() -> Result<(), ValidationError> {
    Ok(())
}

fn bad_slug() -> Result<(), ValidationError> {
    Err(ValidationError::new("slug").with_message("slug is not valid"))
}

#[test]
fn email_and_url_checks() {
    assert!(SignUp { email: "me@example.com".into() }.validate().is_ok());
    assert!(SignUp { email: "not-an-email".into() }.validate().is_err());
    assert!(GetVideoMetadata { url: "https://example.com/x".into() }.validate().is_ok());
    assert!(GetVideoMetadata { url: "example".into() }.validate().is_err());
}

#[test]
fn contact_form_rules() {
    let ok = ContactUs {
        email: "me@example.com".into(),
        name: "Alice B".into(),
        message: "Hello there, friend".into(),
    };
    assert!(ok.validate().is_ok());
    let bad = ContactUs { email: "x".into(), name: "Al".into(), message: "hi".into() };
    let e = bad.validate().unwrap_err();
    assert_eq!(fields(&e), vec!["email", "name", "message"]);
    assert_eq!(e.leading_message(), "provide a valid email");
    assert_eq!(
        e.to_display_string(),
        "email: provide a valid email\nname: name must be between 5 and 100 characters\nmessage: message must be between 10 and 1000 characters"
    );
}

#[test]
fn length_counts_characters_not_bytes() {
    let ok = ContactUs {
        email: "me@example.com".into(),
        name: "日本日本日".into(),
        message: "0123456789".into(),
    };
    assert!(ok.validate().is_ok());
}

#[test]
fn signup_rules() {
    assert!(SignUp { email: "a@b.co".into() }.validate().is_ok());
    let e = SignUp { email: "nope".into() }.validate().unwrap_err();
    assert_eq!(e.first_message(), "not valid");
}

fn post() -> AddPost {
    AddPost {
        title: "A title".into(),
        seo_title: "An SEO title".into(),
        slug: "a-title".into(),
        summary: "s".repeat(60),
        photo_url: "https://x/y.png".into(),
        tags: "rust, verus".into(),
        content: "body".into(),
        password: "pw".into(),
        cf_turnstile_response: "token".into(),
        date: 0,
    }
}

#[test]
fn post_rules() {
    assert!(post().validate(&ok_slug()).is_ok());
    let e = post().validate(&bad_slug()).unwrap_err();
    assert_eq!(fields(&e), vec!["slug"]);
    assert_eq!(e.to_display_string(), "slug: slug is not valid");
    let mut p = post();
    p.title = "abc".into();
    p.summary = "short".into();
    p.cf_turnstile_response = String::new();
    let e = p.validate(&ok_slug()).unwrap_err();
    assert_eq!(fields(&e), vec!["title", "summary", "cf-turnstile-response"]);
}

#[test]
fn edit_and_delete_post_rules() {
    let p = post();
    let edit = EditPost {
        id: 1,
        date: 0,
        title: p.title,
        seo_title: p.seo_title,
        slug: p.slug,
        summary: p.summary,
        photo_url: "x".repeat(256),
        tags: p.tags,
        content: p.content,
        password: p.password,
        cf_turnstile_response: p.cf_turnstile_response,
    };
    let e = edit.validate(&ok_slug()).unwrap_err();
    assert_eq!(fields(&e), vec!["photo_url"]);
    let del = DelPost { slug: "s".into(), password: "p".into(), cf_turnstile_response: "".into() };
    let e = del.validate(&bad_slug()).unwrap_err();
    assert_eq!(fields(&e), vec!["slug", "cf-turnstile-response"]);
}

#[test]
fn short_rules() {
    let add = AddShort {
        long_url: "https://example.com".into(),
        key: "k".into(),
        description: "d".into(),
        password: "p".into(),
        cf_turnstile_response: "t".into(),
    };
    assert!(add.validate(&ok_slug()).is_ok());
    let api = AddShortAPI { long_url: "nope".into(), key: "k".into(), description: "".into() };
    let e = api.validate(&ok_slug()).unwrap_err();
    assert_eq!(fields(&e), vec!["long_url", "description"]);
    assert_eq!(e.first_message(), "description must be between 1 and 160 characters");
    assert_eq!(e.leading_message(), "invalid value");
    let del = DelShort { key: "k".into(), password: "p".into(), cf_turnstile_response: "t".into() };
    assert!(del.validate(&ok_slug()).is_ok());
    let key = ShortKey { key: "k".into() };
    assert!(key.validate(&ok_slug()).is_ok());
    assert_eq!(fields(&key.validate(&bad_slug()).unwrap_err()), vec!["key"]);
}

#[test]
fn upload_rules() {
    let p = cdn::Payload { path: "".into(), password: "".into(), url: "bad".into() };
    let e = p.validate().unwrap_err();
    assert_eq!(fields(&e), vec!["path", "password", "url"]);
    let p = r2::Payload { path: "a".into(), password: "b".into(), cf_turnstile_response: "".into() };
    assert_eq!(fields(&p.validate().unwrap_err()), vec!["cf-turnstile-response"]);
    assert!(GetVideoMetadata { url: "https://youtu.be/x".into() }.validate().is_ok());
    assert!(GetVideoMetadata { url: "youtube".into() }.validate().is_err());
}

fn env() -> Env {
    let s = || "x".to_string();
    Env {
        environment: "dev".into(),
        db_url: s(),
        db_schema: s(),
        redis_url: s(),
        redis_schema: s(),
        resend_api_key: s(),
        domain: s(),
        resend_audience_id: s(),
        admin_password: s(),
        turnstile_site_key: s(),
        turnstile_site_secret: s(),
        cloudflare_token_value: s(),
        cloudflare_access_key_id: s(),
        cloudflare_access_key_secret: s(),
        cloudflare_endpoint: s(),
        cloudflare_bucket_name: s(),
        cloudinary_cloud_name: s(),
        cloudinary_api_key: s(),
        cloudinary_api_secret: s(),
        gemini_api_key: s(),
        gcloud_geocoding_api_key: s(),
        port: 8080,
    }
}

#[test]
fn env_rules() {
    assert!(env().validate().is_ok());
    let mut e = env();
    e.environment = "prod".into();
    e.db_url = String::new();
    e.port = 9000;
    let errs = e.validate().unwrap_err();
    assert_eq!(fields(&errs), vec!["environment", "db_url", "port"]);
    assert_eq!(
        errs.to_display_string(),
        "environment: Please provide a valid environment mode\ndb_url: must not be empty\nport: must be between 8080 and 8090"
    );
}

#[test]
fn env_modes() {
    for mode in ["dev", "prd", "stg"] {
        let mut e = env();
        e.environment = mode.into();
        assert!(e.validate().is_ok());
    }
    let mut e = env();
    e.environment = "test".into();
    let errs = e.validate().unwrap_err();
    assert_eq!(fields(&errs), vec!["environment".to_string()]);
    assert_eq!(errs.errors[0].error.code, "env_mode");
    assert_eq!(
        errs.errors[0].error.message.as_deref(),
        Some("Please provide a valid environment mode")
    );
}

fn validator_report(field: &'static str, code: &'static str, value: &str) -> String {
    let mut err = validator::ValidationError::new(code);
    err.add_param(std::borrow::Cow::from("value"), &value.to_string());
    let mut errs = validator::ValidationErrors::new();
    errs.add(field, err);
    format!("{}", errs)
}

#[test]
fn url_failure_reports_its_value() {
    for url in ["nope", "say \"hi\" \\ there", "tab\there"] {
        let p = AddShortAPI { long_url: url.into(), key: "k".into(), description: "d".into() };
        let e = p.validate(&ok_slug()).unwrap_err();
        assert_eq!(e.to_display_string(), validator_report("long_url", "url", url));
    }
    let p = AddShortAPI { long_url: "nope".into(), key: "k".into(), description: "d".into() };
    let e = p.validate(&ok_slug()).unwrap_err();
    assert_eq!(
        e.to_display_string(),
        "long_url: Validation error: url [{\"value\": String(\"nope\")}]"
    );
}

#[test]
fn validation_internal_message_is_debug_form() {
    let e = SignUp { email: "x".into() }.validate().unwrap_err();
    let mut err = validator::ValidationError::new("email")
        .with_message(std::borrow::Cow::from("not valid"));
    err.add_param(std::borrow::Cow::from("value"), &"x".to_string());
    let mut theirs = validator::ValidationErrors::new();
    theirs.add("email", err);
    let expected = format!("{:?}", theirs);
    assert_eq!(e.debug_string(), expected);
    let app = portfolio::error::AppError::Validation(e);
    assert_eq!(app.internal_message(), Some(expected.clone()));
    assert_eq!(app.log_record().line, format!("AppError [validation]: {}", expected));
}

#[test]
fn bounded_checks_record_bounds_and_value() {
    let p = r2::Payload { path: "".into(), password: "p".into(), cf_turnstile_response: "t".into() };
    let e = p.validate().unwrap_err();
    assert_eq!(
        e.debug_string(),
        "ValidationErrors({\"path\": Field([ValidationError { code: \"length\", message: Some(\"path cannot be empty\"), params: {\"min\": Number(1), \"value\": String(\"\")} }])})"
    );
    let mut env = env();
    env.port = 9000;
    let e = env.validate().unwrap_err();
    assert_eq!(e.to_display_string(), "port: must be between 8080 and 8090");
    assert_eq!(
        e.errors[0].params,
        "{\"min\": Number(8080), \"max\": Number(8090), \"value\": Number(9000)}"
    );
    let e = portfolio::handler::posts::load_more::Payload { page: 0 }.validate().unwrap_err();
    assert_eq!(
        e.to_display_string(),
        "page: Validation error: range [{\"min\": Number(1), \"value\": Number(0)}]"
    );
    assert_eq!(portfolio::validation::ValidationErrors::new().debug_string(), "ValidationErrors({})");
}

#[test]
fn checks_of_one_field_share_its_entry() {
    let mut ours = ValidationErrors::new();
    ours.add("name", "a", None);
    ours.add("name", "b", Some("second"));
    let mut theirs = validator::ValidationErrors::new();
    theirs.add("name", validator::ValidationError::new("a"));
    theirs.add(
        "name",
        validator::ValidationError::new("b").with_message(std::borrow::Cow::from("second")),
    );
    assert_eq!(ours.to_display_string(), format!("{}", theirs));
    assert_eq!(ours.debug_string(), format!("{:?}", theirs));
    assert_eq!(ours.to_display_string(), "name: Validation error: a [{}], second");
}
