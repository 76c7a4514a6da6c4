use portfolio::handler::admin::{
    Action, Background, Event, Reply, add_post_step, bucket_delete_step, rewrite_post_step,
    short_link_step,
};
use portfolio::database::post::page_window;
use portfolio::error::AppError;
use portfolio::handler::contact::{
    ContactStep, Invalid as ContactInvalid, SendEmail, contact_date_format, contact_sender,
    contact_step, contact_subject,
};
use portfolio::handler::form::{FormRejection, check_admin_form, is_authorized};
use portfolio::handler::metadata::{Platform, classify_link, summary_prompt, youtube_description};
use portfolio::handler::newsletter::{NewsletterStep, newsletter_step};
use portfolio::handler::posts::load_more::{LoadMore, Payload as PagePayload};
use portfolio::handler::posts::{self, WriteFailure, post_write_failure};
use portfolio::handler::short::verify::{KeyVerdict, ValidateKey, key_verdict};
use portfolio::handler::short::{self, add_api};
use portfolio::handler::sitemap::{
    ToEntry, UrlEntry, escape_xml, page_count, render_sitemap, sitemap_entries,
};
use portfolio::handler::upload::{self, cdn, presigned};
use portfolio::model::cdn::Payload as CdnPayload;
use portfolio::model::contact::ContactUs;
use portfolio::model::newsletter::SignUp;
use portfolio::model::post::{EditPost, PartialPostWithSlug, Post};
use portfolio::validation::ValidationErrors;

fn invalid(field: &str, message: &str) -> ValidationErrors {
    let mut e = ValidationErrors::new();
    e.add(field, "length", Some(message));
    e
}

#[test]
fn url_entries_join_domain() {
    let a = UrlEntry::new("https://x.dev", "/about", "d", "monthly", "0.8");
    let b = UrlEntry::new("https://x.dev", "about", "d", "monthly", "0.8");
    assert_eq!(a.location, "https://x.dev/about");
    assert_eq!(b.location, a.location);
    assert_eq!(a.priority, "0.8");
}

#[test]
fn page_counts_round_up() {
    assert_eq!(page_count(0, 10), 0);
    assert_eq!(page_count(10, 10), 1);
    assert_eq!(page_count(11, 10), 2);
    assert_eq!(page_count(7, 3), 3);
}

#[test]
fn xml_escaping() {
    assert_eq!(escape_xml("a&b<c>\"d'"), "a&amp;b&lt;c&gt;&quot;d&apos;");
    assert_eq!(escape_xml("plain"), "plain");
}

#[test]
fn sitemap_document() {
    let posts = vec![PartialPostWithSlug { id: 1, date: 0, slug: "hello".into() }];
    let entries = posts.to_entry("https://x.dev");
    assert_eq!(entries[0].location, "https://x.dev/posts/hello");
    assert_eq!(entries[0].last_modified, "1970-01-01T00:00:00+00:00");
    let dates = vec!["2025-01-01".to_string(), "2025-02-01".to_string()];
    let all = sitemap_entries("https://x.dev", &posts, 2, &dates);
    let locs: Vec<&str> = all.iter().map(|e| e.location.as_str()).collect();
    assert_eq!(
        locs,
        vec![
            "https://x.dev/",
            "https://x.dev/about",
            "https://x.dev/posts/hello",
            "https://x.dev/blog/1",
            "https://x.dev/blog/2",
        ]
    );
    assert_eq!(all[0].priority, "1.0");
    assert_eq!(all[4].last_modified, "2025-02-01");
    let xml = render_sitemap(&vec![UrlEntry::new("https://x.dev?a&b", "/", "d", "monthly", "1.0")]);
    assert_eq!(
        xml,
        "<?xml version=\"1.0\" encoding=\"UTF-8\"?>\n<urlset xmlns=\"http://www.sitemaps.org/schemas/sitemap/0.9\">\n  <url>\n    <loc>https://x.dev?a&amp;b/</loc>\n    <lastmod>d</lastmod>\n    <changefreq>monthly</changefreq>\n    <priority>1.0</priority>\n  </url>\n</urlset>"
    );
}

#[test]
fn page_windows() {
    assert_eq!(page_window(1, true, 6), (7, 6));
    assert_eq!(page_window(1, false, 6), (7, 0));
    assert_eq!(page_window(3, false, 6), (7, 12));
    assert_eq!(page_window(0, true, 6), (7, 0));
}

#[test]
fn admin_form_checks_in_order() {
    assert!(matches!(
        check_admin_form(false, Err(invalid("a", "m")), "p", "q"),
        Some(FormRejection::CaptchaFailed)
    ));
    assert!(matches!(
        check_admin_form(true, Err(invalid("a", "m")), "p", "q"),
        Some(FormRejection::Invalid(m)) if m == "a: m"
    ));
    assert!(matches!(
        check_admin_form(true, Ok(()), "p", "q"),
        Some(FormRejection::Invalid(m)) if m == "password is incorrect"
    ));
    assert!(check_admin_form(true, Ok(()), "p", "p").is_none());
}

#[test]
fn bearer_authorization() {
    assert!(is_authorized(Some("s3cret"), "s3cret"));
    assert!(!is_authorized(Some("nope"), "s3cret"));
    assert!(!is_authorized(None, "s3cret"));
}

#[test]
fn contact_flow() {
    let good = ContactUs {
        email: "me@example.com".into(),
        name: "Alice B".into(),
        message: "Hello there, friend".into(),
    };
    assert!(matches!(contact_step(false, &good), ContactStep::CaptchaFailed));
    assert!(matches!(contact_step(true, &good), ContactStep::Send));
    let bad = ContactUs { email: "me@example.com".into(), name: "Al".into(), message: "x".repeat(20) };
    assert!(matches!(
        contact_step(true, &bad),
        ContactStep::Invalid(m) if m == "name must be between 5 and 100 characters"
    ));
    assert_eq!(contact_subject("Alice"), "[Alice] Contact form submission");
    assert_eq!(contact_sender(), "vinuka.dev <contact-form@vinuka.dev>");
    assert_eq!(contact_date_format(), "%Y-%m-%d %H:%M:%S");
    let mail = SendEmail::new("n", "e", "m", "d");
    assert_eq!(mail.date, "d");
    assert_eq!(ContactInvalid::new("why").message, "why");
}

#[test]
fn newsletter_flow() {
    let ok = SignUp { email: "a@b.co".into() };
    let bad = SignUp { email: "ab".into() };
    assert!(matches!(newsletter_step(false, &ok), NewsletterStep::CaptchaFailed));
    assert!(matches!(newsletter_step(true, &bad), NewsletterStep::Invalid));
    assert!(matches!(newsletter_step(true, &ok), NewsletterStep::Subscribe));
}

#[test]
fn post_replies() {
    assert!(matches!(
        post_write_failure(&AppError::conflict("x")),
        WriteFailure::Invalid(m) if m == "post with this slug already exists"
    ));
    assert!(matches!(post_write_failure(&AppError::not_found("x")), WriteFailure::Failed));
    assert_eq!(posts::add::form_id(), "create-post-form");
    assert_eq!(posts::edit::form_id(), "edit-post-form");
    assert_eq!(posts::delete::form_id(), "del-post-form");
    assert_eq!(posts::add::added().0, "Added");
    assert_eq!(posts::edit::edited().0, "Edited");
    assert_eq!(posts::delete::deleted().0, "Deleted");
    let keys = posts::add::stale_keys("s", "slug", 3);
    assert_eq!(keys, vec!["s:latest_posts", "s:post:slug", "s:blog:3", "s:blog:slugs"]);
    assert_eq!(posts::add::publication_stamp(0).as_deref(), Some("1970-01-01T00:00:00+00:00"));
    assert_eq!(posts::add::publication_stamp(u64::MAX), None);
    let ok = posts::Okay::new("a", "m");
    assert_eq!(ok.action, "a");
    assert_eq!(posts::Invalid::new("f", "m").form_id, "f");
    assert_eq!(posts::CaptchaFailed::new("f").form_id, "f");
}

#[test]
fn edited_post_model() {
    let e = EditPost {
        id: 4,
        date: 100,
        title: "t".into(),
        seo_title: "s".into(),
        slug: "g".into(),
        summary: "u".into(),
        photo_url: "p".into(),
        tags: "a".into(),
        content: "c".into(),
        password: "x".into(),
        cf_turnstile_response: "y".into(),
    };
    let m = e.into_model();
    assert_eq!(m.id, 4);
    assert_eq!(m.date, 100);
    assert_eq!(m.slug, "g");
}

fn post(id: i32) -> Post {
    Post::new(id, "t".into(), "s".into(), "d".into(), "x".into(), vec![])
}

#[test]
fn load_more_pages() {
    assert_eq!(PagePayload { page: 0 }.requested_page(), 1);
    assert_eq!(PagePayload { page: 4 }.requested_page(), 4);
    let l = LoadMore::from_page(2, vec![post(1), post(2), post(3)], 2);
    assert_eq!(l.next_page, 3);
    assert!(l.has_more);
    assert_eq!(l.posts.iter().map(|p| p.id).collect::<Vec<_>>(), vec![1, 2]);
    let l = LoadMore::from_page(1, vec![post(1)], 2);
    assert!(!l.has_more);
    assert!(l.posts.is_empty());
    let l = LoadMore::from_page(1, vec![], 2);
    assert!(l.posts.is_empty());
}

#[test]
fn short_link_replies() {
    assert!(matches!(
        short::add_failure(&AppError::conflict("x")),
        short::WriteFailure::Invalid(m) if m == "key is already in use"
    ));
    assert!(matches!(short::add_failure(&AppError::bad_request("x")), short::WriteFailure::Failed));
    assert!(matches!(
        short::delete_failure(&AppError::not_found("x")),
        short::WriteFailure::Invalid(m) if m == "key is not found"
    ));
    assert!(matches!(short::delete_failure(&AppError::conflict("x")), short::WriteFailure::Failed));
    assert_eq!(add_api::short_url("https://x.dev", "k"), "https://x.dev/k");
    assert!(matches!(add_api::check_request(false, Ok(())), Err(AppError::Unauthorized { .. })));
    assert!(matches!(
        add_api::check_request(true, Err(invalid("a", "b"))),
        Err(AppError::Validation(_))
    ));
    assert!(add_api::check_request(true, Ok(())).is_ok());
    assert_eq!(short::add::form_id(), "shorten-link-form");
    assert_eq!(short::delete::form_id(), "del-link-form");
    assert_eq!(short::add::shortened().0, "Shortned");
    assert_eq!(short::delete::deleted().0, "Deleted");
    assert_eq!(short::Okay::new("a", "b").message, "b");
    assert_eq!(short::Invalid::new("f", "m").message, "m");
    assert_eq!(short::CaptchaFailed::new("f").form_id, "f");
}

#[test]
fn key_verdicts() {
    assert!(matches!(key_verdict(Err(invalid("key", "bad")), Some(true)), KeyVerdict::Invalid(m) if m == "key: bad"));
    assert!(matches!(key_verdict(Ok(()), None), KeyVerdict::Invalid(m) if m == "Failed to check key validity"));
    assert!(matches!(key_verdict(Ok(()), Some(false)), KeyVerdict::Invalid(m) if m == "key is already in use"));
    assert!(matches!(key_verdict(Ok(()), Some(true)), KeyVerdict::Okay));
    let ok = ValidateKey::okay("k");
    assert_eq!((ok.value, ok.message, ok.message_type), ("k", "Key used is valid", "info"));
    let bad = ValidateKey::invalid("k", "no");
    assert_eq!((bad.value, bad.message, bad.message_type), ("k", "no", "error"));
}

#[test]
fn presign_checks() {
    assert!(matches!(
        presigned::check_request(false, false, Ok(()), "p", "p"),
        Err(AppError::CaptchaFailed { user_message, .. }) if user_message == "captcha failed"
    ));
    assert!(presigned::check_request(true, false, Ok(()), "p", "p").is_ok());
    assert!(presigned::check_request(false, true, Ok(()), "p", "p").is_ok());
    assert!(matches!(
        presigned::check_request(true, false, Ok(()), "p", "q"),
        Err(AppError::Unauthorized { .. })
    ));
    assert!(matches!(
        presigned::check_request(true, false, Err(invalid("a", "b")), "p", "p"),
        Err(AppError::Validation(_))
    ));
    assert_eq!(presigned::expiry_secs(), 3600);
    assert_eq!(upload::delete::form_id(), "delete-form");
    assert_eq!(upload::delete::deleted().0, "Deleted");
    assert_eq!(upload::Okay::new("a", "b").action, "a");
    assert_eq!(upload::Invalid::new("f", "m").form_id, "f");
    assert_eq!(upload::CaptchaFailed::new("f").form_id, "f");
}

#[test]
fn cdn_upload() {
    let exts = vec![".png".to_string(), ".jpg".to_string()];
    let p = CdnPayload { path: "img/Cat.PNG".into(), password: "pw".into(), url: "https://x/y".into() };
    assert!(cdn::check_request(&p, "pw", &exts).is_ok());
    assert!(matches!(cdn::check_request(&p, "other", &exts), Err(AppError::Unauthorized { .. })));
    let q = CdnPayload { path: "doc.pdf".into(), password: "pw".into(), url: "https://x/y".into() };
    assert!(matches!(
        cdn::check_request(&q, "pw", &exts),
        Err(AppError::BadRequest { user_message, .. }) if user_message == "only image files are allowed"
    ));
    let r = CdnPayload { path: "".into(), password: "pw".into(), url: "https://x/y".into() };
    assert!(matches!(cdn::check_request(&r, "pw", &exts), Err(AppError::Validation(_))));
    assert_eq!(cdn::public_id("a/b.c.png"), "a/b.c");
    assert_eq!(cdn::public_id("noext"), "noext");
    assert_eq!(cdn::public_id(".png"), "");
    let base = cdn::signature_payload("a/b", "1700000000", "sec");
    assert_eq!(base, "public_id=a/b&timestamp=1700000000&use_filename=truesec");
    assert_eq!(cdn::sign("abc"), "a9993e364706816aba3e25717850c26c9cd0d89d");
    let form = cdn::upload_form("u".into(), "t".into(), "k".into(), "p".into(), "s".into());
    let names: Vec<&str> = form.iter().map(|f| f.0).collect();
    assert_eq!(names, vec!["file", "timestamp", "api_key", "public_id", "use_filename", "signature"]);
    assert_eq!(form[4].1, "true");
    assert_eq!(cdn::upload_endpoint("c"), "https://api.cloudinary.com/v1_1/c/image/upload");
    assert_eq!(
        cdn::delivery_url("c", "/a/b.png"),
        "https://res.cloudinary.com/c/image/upload/f_auto,q_auto/v1/a/b.png"
    );
    assert_eq!(
        cdn::delivery_url("c", "a/b.png"),
        "https://res.cloudinary.com/c/image/upload/f_auto,q_auto/v1/a/b.png"
    );
}

#[test]
fn link_classification() {
    assert!(matches!(classify_link("https://vt.tiktok.com/x"), Platform::TikTok));
    assert!(matches!(classify_link("https://youtu.be/x"), Platform::YouTube));
    assert!(matches!(classify_link("https://maps.app.goo.gl/x"), Platform::Maps));
    assert!(matches!(classify_link("https://www.instagram.com/p/x"), Platform::Instagram));
    assert!(matches!(classify_link("https://a.substack.com/p/x"), Platform::Substack));
    assert!(matches!(classify_link("https://fb.watch/x"), Platform::Facebook));
    assert!(matches!(classify_link("https://example.com"), Platform::Generic));
    assert!(matches!(classify_link("https://youtube.com/?q=tiktok.com"), Platform::TikTok));
}

#[test]
fn prompt_and_description() {
    let p = summary_prompt("https://u", None, "meta");
    assert!(p.starts_with("You are a Senior Editor for a knowledge database. \n"));
    assert!(p.ends_with("Input: { URL: 'https://u', Title: 'Unknown', Raw Metadata: meta }\n        Output:"));
    let p = summary_prompt("https://u", Some("T"), "m");
    assert!(p.contains("Title: 'T'"));
    let html = "<head><meta name=\"description\" content=\"A video\"></head>";
    assert_eq!(youtube_description(html).as_deref(), Some("A video"));
    assert_eq!(youtube_description("<head></head>"), None);
}

#[test]
fn consecutive_pages_are_adjacent() {
    for page in 1..10u64 {
        let (limit, offset) = page_window(page, true, 4);
        let (_, next) = page_window(page + 1, true, 4);
        assert_eq!(next, offset + limit - 1);
    }
}

#[test]
fn admin_post_steps() {
    let is_answer = |a: &Action, r: &str, b: &str| match a {
        Action::Answer(reply, bg) => {
            let reply = match reply {
                Reply::CaptchaFailed => "captcha".to_string(),
                Reply::Invalid(m) => format!("invalid:{}", m),
                Reply::Failed => "failed".to_string(),
                Reply::Okay => "okay".to_string(),
            };
            let bg = match bg {
                Background::Nothing => "nothing",
                Background::RefreshPages => "refresh",
                Background::FlushCache => "flush",
            };
            reply == r && bg == b
        }
        _ => false,
    };
    assert!(is_answer(
        &add_post_step(Event::Checked(Some(FormRejection::CaptchaFailed))),
        "captcha",
        "nothing"
    ));
    assert!(matches!(add_post_step(Event::Checked(None)), Action::Connect));
    assert!(matches!(add_post_step(Event::Connected(Ok(()))), Action::Write));
    assert!(is_answer(&add_post_step(Event::Connected(Err(AppError::bad_request("x")))), "failed", "nothing"));
    assert!(matches!(add_post_step(Event::Written(Ok(()))), Action::CountPosts));
    assert!(is_answer(
        &add_post_step(Event::Written(Err(AppError::conflict("dup")))),
        "invalid:post with this slug already exists",
        "nothing"
    ));
    assert!(is_answer(&add_post_step(Event::Counted(true)), "okay", "refresh"));
    assert!(is_answer(&add_post_step(Event::Counted(false)), "okay", "flush"));

    assert!(matches!(
        rewrite_post_step(true, Event::Connected(Err(AppError::bad_request("x")))),
        Action::ErrorPage(AppError::BadRequest { .. })
    ));
    assert!(matches!(rewrite_post_step(false, Event::Written(Ok(()))), Action::Flush));
    assert!(is_answer(
        &rewrite_post_step(true, Event::Written(Err(AppError::conflict("dup")))),
        "invalid:post with this slug already exists",
        "nothing"
    ));
    assert!(is_answer(&rewrite_post_step(false, Event::Written(Err(AppError::conflict("dup")))), "failed", "nothing"));
    assert!(is_answer(&rewrite_post_step(false, Event::Flushed(true)), "okay", "nothing"));
    assert!(is_answer(&rewrite_post_step(true, Event::Flushed(false)), "failed", "nothing"));

    assert!(matches!(short_link_step(true, Event::Checked(None)), Action::Write));
    assert!(is_answer(
        &short_link_step(true, Event::Written(Err(AppError::conflict("dup")))),
        "invalid:key is already in use",
        "nothing"
    ));
    assert!(is_answer(
        &short_link_step(false, Event::Written(Err(AppError::not_found("gone")))),
        "invalid:key is not found",
        "nothing"
    ));
    assert!(is_answer(&short_link_step(false, Event::Written(Ok(()))), "okay", "nothing"));
    assert!(is_answer(
        &short_link_step(true, Event::Checked(Some(FormRejection::Invalid("bad".into())))),
        "invalid:bad",
        "nothing"
    ));

    assert!(matches!(
        bucket_delete_step(Event::Written(Err(AppError::bad_request("x")))),
        Action::ErrorPage(_)
    ));
    assert!(is_answer(&bucket_delete_step(Event::Written(Ok(()))), "okay", "nothing"));
}
