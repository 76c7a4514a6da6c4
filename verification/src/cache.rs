//! Cache keys, their lifetimes, and the cached bookkeeping of when each page
//! of the blog last changed.
use vstd::prelude::*;
use crate::text::{decimal, push_decimal};
use crate::time::days_in_seconds;

verus! {

/// The characters of each string of a list.
pub open spec fn strings_view(v: Seq<String>) -> Seq<Seq<char>> {
    v.map_values(|s: String| s@)
}

/// How long every cached entry lives: thirty days, in seconds.
pub open spec fn cache_ttl() -> i64 {
    2_592_000
}

/// Cached entries live thirty days of twenty-four hours.
pub proof fn lemma_cache_ttl()
    ensures
        cache_ttl() == 30 * 24 * 60 * 60,
{
}

fn thirty_days() -> (secs: i64)
    ensures
        secs == cache_ttl(),
{
    days_in_seconds(30)
}

fn key(schema: &str, suffix: &str) -> (k: String)
    ensures
        k@ == schema@ + suffix@,
{
    let mut k = String::from_str(schema);
    k.append(suffix);
    k
}

/// Key of the cached experiences: `"{schema}:experiences"`.
pub fn gck_experiences(schema: &str) -> (k: String)
    ensures
        k@ == schema@ + ":experiences"@,
{
    key(schema, ":experiences")
}

pub fn gct_experiences() -> (secs: i64)
    ensures
        secs == cache_ttl(),
{
    thirty_days()
}

/// Key of the cached projects: `"{schema}:projects"`.
pub fn gck_projects(schema: &str) -> (k: String)
    ensures
        k@ == schema@ + ":projects"@,
{
    key(schema, ":projects")
}

pub fn gct_projects() -> (secs: i64)
    ensures
        secs == cache_ttl(),
{
    thirty_days()
}

/// Key of one cached post: `"{schema}:post:{slug}"`.
pub fn gck_for_slug(schema: &str, slug: &str) -> (k: String)
    ensures
        k@ == schema@ + ":post:"@ + slug@,
{
    let mut k = key(schema, ":post:");
    k.append(slug);
    k
}

pub fn gct_for_slug() -> (secs: i64)
    ensures
        secs == cache_ttl(),
{
    thirty_days()
}

/// Key of the latest posts shown on the home page: `"{schema}:latest_posts"`.
pub fn gck_for_home(schema: &str) -> (k: String)
    ensures
        k@ == schema@ + ":latest_posts"@,
{
    key(schema, ":latest_posts")
}

pub fn gct_for_home() -> (secs: i64)
    ensures
        secs == cache_ttl(),
{
    thirty_days()
}

/// Key of the cached number of posts: `"{schema}:blog:sum"`.
pub fn gck_for_total(schema: &str) -> (k: String)
    ensures
        k@ == schema@ + ":blog:sum"@,
{
    key(schema, ":blog:sum")
}

pub fn gct_for_total() -> (secs: i64)
    ensures
        secs == cache_ttl(),
{
    thirty_days()
}

/// Key of one page of the blog: `"{schema}:blog:{page}"`.
pub fn gck_for_page(schema: &str, page: u64) -> (k: String)
    ensures
        k@ == schema@ + ":blog:"@ + decimal(page as nat),
{
    let mut k = key(schema, ":blog:");
    push_decimal(&mut k, page);
    k
}

pub fn gct_for_page() -> (secs: i64)
    ensures
        secs == cache_ttl(),
{
    thirty_days()
}

/// Key of the cached list of slugs: `"{schema}:blog:slugs"`.
pub fn gck_for_slugs(schema: &str) -> (k: String)
    ensures
        k@ == schema@ + ":blog:slugs"@,
{
    key(schema, ":blog:slugs")
}

pub fn gct_for_slugs() -> (secs: i64)
    ensures
        secs == cache_ttl(),
{
    thirty_days()
}

/// Key of the dates on which each blog page last changed: `"{schema}:blog:last-modified"`.
pub fn gck_for_last_modified(schema: &str) -> (k: String)
    ensures
        k@ == schema@ + ":blog:last-modified"@,
{
    key(schema, ":blog:last-modified")
}

/// Whether to answer from the cache: a forced refresh never does, otherwise a
/// cached value, when there is one, is the answer.
pub fn use_cached<T>(force: bool, cached: Option<T>) -> (r: Option<T>)
    ensures
        r == (if force { None } else { cached }),
{
    if force {
        None
    } else {
        cached
    }
}

/// The list of strings that a JSON text denotes, when it is a JSON array of strings.
pub uninterp spec fn json_string_list(text: Seq<char>) -> Option<Seq<Seq<char>>>;

/// The JSON text of a list of strings, when serde_json writes one.
pub uninterp spec fn json_of_string_list(list: Seq<Seq<char>>) -> Option<Seq<char>>;

/// `serde_json::from_str::<Vec<String>>`.
#[verifier::external_body]
pub(crate) fn parse_string_list(text: &str) -> (r: Option<Vec<String>>)
    ensures
        match r {
            Some(v) => json_string_list(text@) == Some(strings_view(v@)),
            None => json_string_list(text@) is None,
        },
{
    match serde_json::from_str::<Vec<String>>(text) {
        Ok(v) => Some(v),
        Err(_) => None,
    }
}

/// `serde_json::to_string` of a list of strings. Writing a list of strings
/// cannot fail (no `Serialize` impl that fails, no map keys), and the JSON text
/// of a string reads back as that string, so the text read as a list of
/// strings is the list.
#[verifier::external_body]
pub(crate) fn write_string_list(list: &Vec<String>) -> (r: Option<String>)
    ensures
        match r {
            Some(s) => json_of_string_list(strings_view(list@)) == Some(s@),
            None => json_of_string_list(strings_view(list@)) is None,
        },
        r is Some,
        r matches Some(s) ==> json_string_list(s@) == Some(strings_view(list@)),
{
    match serde_json::to_string(list) {
        Ok(s) => Some(s),
        Err(_) => None,
    }
}

/// The list that a cached value holds: the JSON list when the value is one,
/// an empty list when there is no value or it is not a list of strings.
pub open spec fn decoded_list(cached: Option<Seq<char>>) -> Seq<Seq<char>> {
    let text = match cached {
        Some(t) => t,
        None => "[]"@,
    };
    match json_string_list(text) {
        Some(l) => l,
        None => Seq::empty(),
    }
}

/// The text to cache for a list: its JSON, or `"[]"` should writing fail.
pub open spec fn encoded_list(list: Seq<Seq<char>>) -> Seq<char> {
    match json_of_string_list(list) {
        Some(t) => t,
        None => "[]"@,
    }
}

pub fn decode_list(cached: Option<String>) -> (l: Vec<String>)
    ensures
        strings_view(l@) == decoded_list(
            match cached {
                Some(t) => Some(t@),
                None => None,
            },
        ),
{
    let text = match cached {
        Some(t) => t,
        None => String::from_str("[]"),
    };
    match parse_string_list(text.as_str()) {
        Some(l) => l,
        None => {
            let l: Vec<String> = Vec::new();
            assert(strings_view(l@) =~= Seq::<Seq<char>>::empty());
            l
        },
    }
}

pub fn encode_list(list: &Vec<String>) -> (t: String)
    ensures
        t@ == encoded_list(strings_view(list@)),
        decoded_list(Some(t@)) == strings_view(list@),
{
    match write_string_list(list) {
        Some(t) => t,
        None => String::from_str("[]"),
    }
}

/// The dates after page `page` changed on `date`: the list grows to at least
/// `page` entries, new entries taking `date`, and entry `page - 1` becomes `date`.
pub open spec fn set_page_date(list: Seq<Seq<char>>, page: nat, date: Seq<char>) -> Seq<Seq<char>> {
    let len = if list.len() < page { page } else { list.len() };
    Seq::new(
        len,
        |i: int|
            if i == page - 1 {
                date
            } else if i < list.len() {
                list[i]
            } else {
                date
            },
    )
}

/// The dates padded to at least `pages` entries, new entries taking `fill`.
pub open spec fn pad_dates(list: Seq<Seq<char>>, pages: nat, fill: Seq<char>) -> Seq<Seq<char>> {
    let len = if list.len() < pages { pages } else { list.len() };
    Seq::new(len, |i: int| if i < list.len() { list[i] } else { fill })
}

/// Pads `list` with copies of `fill` until it holds `len` entries.
fn grow(list: &mut Vec<String>, len: usize, fill: &str)
    ensures
        strings_view(final(list)@) == pad_dates(strings_view(old(list)@), len as nat, fill@),
{
    let ghost start = strings_view(list@);
    while list.len() < len
        invariant
            start.len() <= list.len(),
            list.len() <= if start.len() < len { len as nat } else { start.len() },
            forall|i: int|
                0 <= i < list.len() ==> #[trigger] list@[i]@ == (if i < start.len() {
                    start[i]
                } else {
                    fill@
                }),
        decreases len - list.len(),
    {
        list.push(String::from_str(fill));
    }
    assert(strings_view(list@) =~= pad_dates(start, len as nat, fill@));
}

/// Records that page `page` (counted from one) changed on `date`.
pub fn set_last_modified(list: Vec<String>, page: u64, date: &str) -> (r: Vec<String>)
    requires
        1 <= page <= usize::MAX,
    ensures
        strings_view(r@) == set_page_date(strings_view(list@), page as nat, date@),
        r@.len() == (if list@.len() < page { page as int } else { list@.len() as int }),
        r@[page - 1]@ == date@,
        forall|i: int|
            0 <= i < list@.len() && i != page - 1 ==> #[trigger] r@[i]@ == list@[i]@,
        forall|i: int| list@.len() <= i < r@.len() ==> #[trigger] r@[i]@ == date@,
{
    let ghost start = strings_view(list@);
    let mut l = list;
    grow(&mut l, page as usize, date);
    let ghost padded = strings_view(l@);
    assert(padded.len() == l@.len());
    l.set((page - 1) as usize, String::from_str(date));
    assert forall|i: int| 0 <= i < l@.len() implies #[trigger] strings_view(l@)[i] == set_page_date(
        start,
        page as nat,
        date@,
    )[i] by {
        if i != page - 1 {
            assert(strings_view(l@)[i] == padded[i]);
        }
    }
    assert(strings_view(l@) =~= set_page_date(start, page as nat, date@));
    assert forall|i: int| 0 <= i < l@.len() implies #[trigger] l@[i]@ == set_page_date(
        start,
        page as nat,
        date@,
    )[i] by {
        assert(strings_view(l@)[i] == l@[i]@);
    }
    assert forall|i: int| 0 <= i < list@.len() implies #[trigger] list@[i]@ == start[i] by {}
    l
}

/// The dates for `pages` pages, pages that have none yet taking `now`.
pub fn pad_last_modified(list: Vec<String>, pages: u64, now: &str) -> (r: Vec<String>)
    requires
        pages <= usize::MAX,
    ensures
        strings_view(r@) == pad_dates(strings_view(list@), pages as nat, now@),
        r@.len() == (if list@.len() < pages { pages as int } else { list@.len() as int }),
        forall|i: int| 0 <= i < list@.len() ==> #[trigger] r@[i]@ == list@[i]@,
        forall|i: int| list@.len() <= i < r@.len() ==> #[trigger] r@[i]@ == now@,
{
    let ghost start = strings_view(list@);
    let ghost orig = list@;
    let mut l = list;
    grow(&mut l, pages as usize, now);
    assert forall|i: int| 0 <= i < l@.len() implies #[trigger] l@[i]@ == pad_dates(
        start,
        pages as nat,
        now@,
    )[i] by {
        assert(strings_view(l@)[i] == l@[i]@);
    }
    assert(strings_view(l@).len() == l@.len());
    assert(start.len() == orig.len());
    assert forall|i: int| 0 <= i < orig.len() implies #[trigger] l@[i]@ == orig[i]@ by {
        assert(start[i] == orig[i]@);
        assert(strings_view(l@)[i] == l@[i]@);
    }
    l
}

/// What is cached after page `page` changed on `date`, given what was cached before.
pub fn updated_last_modified(cached: Option<String>, page: u64, date: &str) -> (t: String)
    requires
        1 <= page <= usize::MAX,
    ensures
        t@ == encoded_list(
            set_page_date(
                decoded_list(
                    match cached {
                        Some(c) => Some(c@),
                        None => None,
                    },
                ),
                page as nat,
                date@,
            ),
        ),
        decoded_list(Some(t@)) == set_page_date(
            decoded_list(
                match cached {
                    Some(c) => Some(c@),
                    None => None,
                },
            ),
            page as nat,
            date@,
        ),
{
    let list = decode_list(cached);
    let list = set_last_modified(list, page, date);
    encode_list(&list)
}

/// The dates for `pages` pages of the blog given what was cached, and the text
/// to cache back.
pub fn last_modified_for_pages(cached: Option<String>, pages: u64, now: &str) -> (r: (
    Vec<String>,
    String,
))
    requires
        pages <= usize::MAX,
    ensures
        strings_view(r.0@) == pad_dates(
            decoded_list(
                match cached {
                    Some(c) => Some(c@),
                    None => None,
                },
            ),
            pages as nat,
            now@,
        ),
        r.1@ == encoded_list(strings_view(r.0@)),
        decoded_list(Some(r.1@)) == strings_view(r.0@),
{
    let list = decode_list(cached);
    let list = pad_last_modified(list, pages, now);
    let text = encode_list(&list);
    (list, text)
}

/// Different posts are cached under different keys.
pub proof fn lemma_slug_keys_distinct(schema: Seq<char>, a: Seq<char>, b: Seq<char>)
    requires
        a != b,
    ensures
        schema + ":post:"@ + a != schema + ":post:"@ + b,
{
    let p = schema + ":post:"@;
    if p + a == p + b {
        assert(a =~= (p + a).subrange(p.len() as int, (p + a).len() as int));
        assert(b =~= (p + b).subrange(p.len() as int, (p + b).len() as int));
    }
}

/// A digit is one of `0` to `9`.
pub open spec fn is_digit(c: char) -> bool {
    '0' <= c && c <= '9'
}

proof fn lemma_decimal_digits(n: nat)
    ensures
        decimal(n).len() >= 1,
        forall|i: int| 0 <= i < decimal(n).len() ==> is_digit(#[trigger] decimal(n)[i]),
    decreases n,
{
    if n >= 10 {
        lemma_decimal_digits(n / 10);
    }
}

proof fn lemma_digit_char_injective(a: nat, b: nat)
    requires
        a < 10,
        b < 10,
        crate::text::digit_char(a) == crate::text::digit_char(b),
    ensures
        a == b,
{
}

/// Different numbers are written differently.
pub proof fn lemma_decimal_injective(m: nat, n: nat)
    requires
        decimal(m) == decimal(n),
    ensures
        m == n,
    decreases m + n,
{
    lemma_decimal_digits(m);
    lemma_decimal_digits(n);
    if m < 10 && n < 10 {
        assert(decimal(m)[0] == crate::text::digit_char(m));
        assert(decimal(n)[0] == crate::text::digit_char(n));
        lemma_digit_char_injective(m, n);
    } else if m >= 10 && n >= 10 {
        assert(decimal(m).drop_last() =~= decimal(m / 10));
        assert(decimal(n).drop_last() =~= decimal(n / 10));
        assert(decimal(m).last() == crate::text::digit_char(m % 10));
        assert(decimal(n).last() == crate::text::digit_char(n % 10));
        lemma_decimal_injective(m / 10, n / 10);
        lemma_digit_char_injective(m % 10, n % 10);
    } else if m < 10 {
        lemma_decimal_digits(n / 10);
        assert(decimal(n).len() >= 2);
    } else {
        lemma_decimal_digits(m / 10);
        assert(decimal(m).len() >= 2);
    }
}

/// Different blog pages are cached under different keys.
pub proof fn lemma_page_keys_distinct(schema: Seq<char>, p: nat, q: nat)
    requires
        p != q,
    ensures
        schema + ":blog:"@ + decimal(p) != schema + ":blog:"@ + decimal(q),
{
    let pre = schema + ":blog:"@;
    if pre + decimal(p) == pre + decimal(q) {
        assert(decimal(p) =~= (pre + decimal(p)).subrange(pre.len() as int, (pre + decimal(p)).len() as int));
        assert(decimal(q) =~= (pre + decimal(q)).subrange(pre.len() as int, (pre + decimal(q)).len() as int));
        lemma_decimal_injective(p, q);
    }
}

/// No blog page is cached under the key of the post count, of the slug list,
/// or of the last-modified dates.
pub proof fn lemma_page_key_apart(schema: Seq<char>, p: nat)
    ensures
        schema + ":blog:"@ + decimal(p) != schema + ":blog:sum"@,
        schema + ":blog:"@ + decimal(p) != schema + ":blog:slugs"@,
        schema + ":blog:"@ + decimal(p) != schema + ":blog:last-modified"@,
{
    reveal_strlit(":blog:");
    reveal_strlit(":blog:sum");
    reveal_strlit(":blog:slugs");
    reveal_strlit(":blog:last-modified");
    lemma_decimal_digits(p);
    let k = schema + ":blog:"@ + decimal(p);
    let at: int = schema.len() as int + 6;
    assert(k[at] == decimal(p)[0]);
    assert((schema + ":blog:sum"@)[at] == 's');
    assert((schema + ":blog:slugs"@)[at] == 's');
    assert((schema + ":blog:last-modified"@)[at] == 'l');
}

/// No post is cached under any other key of the site: the home page's, the
/// post count's, the slug list's, the last-modified dates', a blog page's, the
/// experiences' or the projects'.
pub proof fn lemma_post_key_apart(schema: Seq<char>, slug: Seq<char>, p: nat)
    ensures
        schema + ":post:"@ + slug != schema + ":latest_posts"@,
        schema + ":post:"@ + slug != schema + ":blog:sum"@,
        schema + ":post:"@ + slug != schema + ":blog:slugs"@,
        schema + ":post:"@ + slug != schema + ":blog:last-modified"@,
        schema + ":post:"@ + slug != schema + ":blog:"@ + decimal(p),
        schema + ":post:"@ + slug != schema + ":experiences"@,
        schema + ":post:"@ + slug != schema + ":projects"@,
{
    reveal_strlit(":post:");
    reveal_strlit(":latest_posts");
    reveal_strlit(":blog:sum");
    reveal_strlit(":blog:slugs");
    reveal_strlit(":blog:last-modified");
    reveal_strlit(":blog:");
    reveal_strlit(":experiences");
    reveal_strlit(":projects");
    let k = schema + ":post:"@ + slug;
    let at: int = schema.len() as int + 1;
    assert(k[at] == 'p');
    assert(k[at + 1] == 'o');
    assert((schema + ":latest_posts"@)[at] == 'l');
    assert((schema + ":blog:sum"@)[at] == 'b');
    assert((schema + ":blog:slugs"@)[at] == 'b');
    assert((schema + ":blog:last-modified"@)[at] == 'b');
    assert((schema + ":blog:"@ + decimal(p))[at] == 'b');
    assert((schema + ":experiences"@)[at] == 'e');
    assert((schema + ":projects"@)[at + 1] == 'r');
}

/// After page `page` changed on `date`, reading the dates for any number of pages
/// gives `date` for that page, and the dates of all other pages are kept.
pub proof fn lemma_date_read_back(
    list: Seq<Seq<char>>,
    page: nat,
    date: Seq<char>,
    pages: nat,
    now: Seq<char>,
)
    requires
        page >= 1,
    ensures
        pad_dates(set_page_date(list, page, date), pages, now).len() >= page,
        pad_dates(set_page_date(list, page, date), pages, now)[page - 1] == date,
        forall|i: int|
            0 <= i < list.len() && i != page - 1 ==> #[trigger] pad_dates(
                set_page_date(list, page, date),
                pages,
                now,
            )[i] == list[i],
{
}

/// The text that `updated_last_modified` caches, read back by
/// `last_modified_for_pages` for any number of pages, gives the recorded date
/// for that page and keeps the dates that were cached for the other pages.
pub proof fn lemma_cached_date_read_back(
    before: Option<Seq<char>>,
    written: Seq<char>,
    page: nat,
    date: Seq<char>,
    pages: nat,
    now: Seq<char>,
)
    requires
        page >= 1,
        decoded_list(Some(written)) == set_page_date(decoded_list(before), page, date),
    ensures
        pad_dates(decoded_list(Some(written)), pages, now).len() >= page,
        pad_dates(decoded_list(Some(written)), pages, now)[page - 1] == date,
        forall|i: int|
            0 <= i < decoded_list(before).len() && i != page - 1 ==> #[trigger] pad_dates(
                decoded_list(Some(written)),
                pages,
                now,
            )[i] == decoded_list(before)[i],
{
    lemma_date_read_back(decoded_list(before), page, date, pages, now);
}

/// Padding the dates a second time changes nothing.
pub proof fn lemma_pad_idempotent(list: Seq<Seq<char>>, pages: nat, a: Seq<char>, b: Seq<char>)
    ensures
        pad_dates(pad_dates(list, pages, a), pages, b) == pad_dates(list, pages, a),
{
    assert(pad_dates(pad_dates(list, pages, a), pages, b) =~= pad_dates(list, pages, a));
}

/// Recording the same date for the same page twice is recording it once.
pub proof fn lemma_set_idempotent(list: Seq<Seq<char>>, page: nat, date: Seq<char>)
    requires
        page >= 1,
    ensures
        set_page_date(set_page_date(list, page, date), page, date) == set_page_date(
            list,
            page,
            date,
        ),
{
    assert(set_page_date(set_page_date(list, page, date), page, date) =~= set_page_date(
        list,
        page,
        date,
    ));
}

} // verus!
