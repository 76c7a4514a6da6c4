//! Adding a post.
use vstd::prelude::*;
use crate::cache::{gck_for_home, gck_for_page, gck_for_slug, gck_for_slugs, strings_view};
use crate::text::decimal;
use crate::time::{rfc3339_of_timestamp, timestamp_rfc3339};

verus! {

pub fn form_id() -> (s: &'static str)
    ensures
        s@ == "create-post-form"@,
{
    "create-post-form"
}

/// The reply after a post was added.
pub fn added() -> (r: (&'static str, &'static str))
    ensures
        r.0@ == "Added"@,
        r.1@ == "Your post has been successfully created. It will appear in the blog soon!"@,
{
    ("Added", "Your post has been successfully created. It will appear in the blog soon!")
}

/// The cached entries a new post makes stale: the home page, the post, the blog
/// page it lands on, and the list of slugs.
pub fn stale_keys(schema: &str, slug: &str, page: u64) -> (keys: Vec<String>)
    ensures
        strings_view(keys@) == seq![
            schema@ + ":latest_posts"@,
            schema@ + ":post:"@ + slug@,
            schema@ + ":blog:"@ + decimal(page as nat),
            schema@ + ":blog:slugs"@,
        ],
{
    let mut keys: Vec<String> = Vec::new();
    keys.push(gck_for_home(schema));
    keys.push(gck_for_slug(schema, slug));
    keys.push(gck_for_page(schema, page));
    keys.push(gck_for_slugs(schema));
    assert(strings_view(keys@) =~= seq![
        schema@ + ":latest_posts"@,
        schema@ + ":post:"@ + slug@,
        schema@ + ":blog:"@ + decimal(page as nat),
        schema@ + ":blog:slugs"@,
    ]);
    keys
}

/// The RFC 3339 date of a post published at UNIX time `date`; none when the date
/// does not fit an `i64` or lies beyond chrono's calendar, where the site's
/// bookkeeping task gives up.
pub fn publication_stamp(date: u64) -> (r: Option<String>)
    ensures
        date > i64::MAX ==> r is None,
        date <= i64::MAX ==> match r {
            Some(s) => rfc3339_of_timestamp(date as int) == Some(s@),
            None => rfc3339_of_timestamp(date as int) is None,
        },
{
    if date > i64::MAX as u64 {
        None
    } else {
        timestamp_rfc3339(date as i64)
    }
}

} // verus!
