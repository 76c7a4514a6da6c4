use portfolio::cache::{
    gck_experiences, gck_for_home, gck_for_last_modified, gck_for_page, gck_for_slug,
    gck_for_slugs, gck_for_total, gck_projects, gct_experiences, gct_for_home, gct_for_page,
    gct_for_slug, gct_for_slugs, gct_for_total, gct_projects, last_modified_for_pages,
    pad_last_modified, set_last_modified, updated_last_modified, use_cached,
};

fn strings(v: &[&str]) -> Vec<String> {
    v.iter().map(|s| s.to_string()).collect()
}

#[test]
fn keys_are_prefixed_by_schema() {
    assert_eq!(gck_experiences("dev"), "dev:experiences");
    assert_eq!(gck_projects("dev"), "dev:projects");
    assert_eq!(gck_for_slug("dev", "hello-world"), "dev:post:hello-world");
    assert_eq!(gck_for_home("dev"), "dev:latest_posts");
    assert_eq!(gck_for_total("dev"), "dev:blog:sum");
    assert_eq!(gck_for_page("dev", 12), "dev:blog:12");
    assert_eq!(gck_for_page("dev", 0), "dev:blog:0");
    assert_eq!(gck_for_slugs("dev"), "dev:blog:slugs");
    assert_eq!(gck_for_last_modified("dev"), "dev:blog:last-modified");
}

#[test]
fn page_key_of_large_page() {
    assert_eq!(gck_for_page("s", u64::MAX), format!("s:blog:{}", u64::MAX));
}

#[test]
fn every_entry_lives_thirty_days() {
    for ttl in [
        gct_experiences(),
        gct_projects(),
        gct_for_slug(),
        gct_for_home(),
        gct_for_total(),
        gct_for_page(),
        gct_for_slugs(),
    ] {
        assert_eq!(ttl, 30 * 24 * 60 * 60);
    }
}

#[test]
fn forced_refresh_ignores_cache() {
    assert_eq!(use_cached(true, Some(7u64)), None);
    assert_eq!(use_cached(false, Some(7u64)), Some(7));
    assert_eq!(use_cached::<u64>(false, None), None);
}

#[test]
fn set_last_modified_grows_and_overwrites() {
    let l = set_last_modified(strings(&["a"]), 3, "d");
    assert_eq!(l, strings(&["a", "d", "d"]));
    let l = set_last_modified(strings(&["a", "b", "c"]), 2, "d");
    assert_eq!(l, strings(&["a", "d", "c"]));
    let l = set_last_modified(vec![], 1, "x");
    assert_eq!(l, strings(&["x"]));
}

#[test]
fn pad_last_modified_only_grows() {
    assert_eq!(pad_last_modified(strings(&["a"]), 3, "n"), strings(&["a", "n", "n"]));
    assert_eq!(pad_last_modified(strings(&["a", "b"]), 1, "n"), strings(&["a", "b"]));
}

#[test]
fn updated_last_modified_round_trips_json() {
    let t = updated_last_modified(Some("[\"x\"]".to_string()), 2, "y");
    assert_eq!(t, "[\"x\",\"y\"]");
    let t = updated_last_modified(None, 1, "y");
    assert_eq!(t, "[\"y\"]");
    let t = updated_last_modified(Some("not json".to_string()), 1, "y");
    assert_eq!(t, "[\"y\"]");
}

#[test]
fn last_modified_for_pages_pads_and_encodes() {
    let (l, t) = last_modified_for_pages(Some("[\"a\"]".to_string()), 2, "now");
    assert_eq!(l, strings(&["a", "now"]));
    assert_eq!(t, "[\"a\",\"now\"]");
    let (l, t) = last_modified_for_pages(None, 0, "now");
    assert!(l.is_empty());
    assert_eq!(t, "[]");
}

#[test]
fn date_read_back_after_write() {
    let written = updated_last_modified(Some("[\"a\",\"b\",\"c\"]".to_string()), 2, "z");
    let (l, _) = last_modified_for_pages(Some(written), 4, "now");
    assert_eq!(l, strings(&["a", "z", "c", "now"]));
}

#[test]
fn written_dates_with_quotes_read_back() {
    let date = "say \"hi\" \\ now";
    let written = updated_last_modified(None, 1, date);
    let (l, t) = last_modified_for_pages(Some(written.clone()), 1, "later");
    assert_eq!(l, strings(&[date]));
    assert_eq!(t, written);
}
