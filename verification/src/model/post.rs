use vstd::prelude::*;
use crate::cache::strings_view;
use crate::text::{
    count_char, is_white_space, lemma_split_len, lemma_split_pieces_free_of_sep,
    lemma_strip_white_space, remove_white_space, split_commas, split_on, strip_white_space,
};
use crate::time::{timestamp_ymd, ymd_of_timestamp};
use crate::validation::{
    Issue, ValidationError, ValidationErrors, custom_issue, length_issue, verdict_view,
};

verus! {

pub struct Post {
    pub id: i32,
    pub title: String,
    pub slug: String,
    pub date: String,
    pub description: String,
    pub tags: Vec<String>,
}

impl Post {
    pub fn new(
        id: i32,
        title: String,
        slug: String,
        date: String,
        description: String,
        tags: Vec<String>,
    ) -> (p: Self)
        ensures
            p.id == id,
            p.title == title,
            p.slug == slug,
            p.date == date,
            p.description == description,
            p.tags == tags,
    {
        Post { id, title, slug, date, description, tags }
    }
}

/// A post as listed: its summary, comma-separated tags and UNIX publication date.
pub struct PartialPost {
    pub id: i32,
    pub title: String,
    pub slug: String,
    pub summary: String,
    pub tags: String,
    pub date: i32,
}

/// A post as the database stores it.
pub struct PostModel {
    pub id: i32,
    pub title: String,
    pub seo_title: String,
    pub slug: String,
    pub photo_url: String,
    pub tags: String,
    pub summary: String,
    pub content: String,
    pub date: i32,
}

/// The tags of a comma-separated list, each with all white space removed.
pub open spec fn compact_tags(tags: Seq<char>) -> Seq<Seq<char>> {
    split_on(tags, ',').map_values(|p: Seq<char>| strip_white_space(p))
}

/// The pieces of a comma-separated list with all white space removed.
pub fn compacted_tags(tags: &str) -> (r: Vec<String>)
    ensures
        strings_view(r@) == compact_tags(tags@),
{
    let pieces = split_commas(tags);
    let mut r: Vec<String> = Vec::new();
    let n = pieces.len();
    for i in 0..n
        invariant
            n == pieces@.len(),
            strings_view(pieces@) == split_on(tags@, ','),
            strings_view(r@) == strings_view(pieces@).take(i as int).map_values(
                |p: Seq<char>| strip_white_space(p),
            ),
    {
        let t = remove_white_space(pieces[i].as_str());
        let ghost before = strings_view(r@);
        r.push(t);
        assert(strings_view(r@) =~= before.push(strip_white_space(pieces@[i as int]@)));
        assert(strings_view(pieces@).take(i + 1) =~= strings_view(pieces@).take(i as int).push(
            pieces@[i as int]@,
        ));
        assert(strings_view(r@) =~= strings_view(pieces@).take(i + 1).map_values(
            |p: Seq<char>| strip_white_space(p),
        ));
    }
    assert(strings_view(pieces@).take(n as int) =~= strings_view(pieces@));
    r
}

/// The post that a listed row shows: its date as `%Y-%m-%d` in UTC, its summary
/// as description, its tags compacted.
pub open spec fn shows_post(p: Post, m: PartialPost) -> bool {
    &&& p.id == m.id
    &&& p.title@ == m.title@
    &&& p.slug@ == m.slug@
    &&& ymd_of_timestamp(m.date as int) == Some(p.date@)
    &&& p.description@ == m.summary@
    &&& strings_view(p.tags@) == compact_tags(m.tags@)
}

pub trait ToPosts: Sized {
    fn to_posts(self) -> Vec<Post>;
}

impl ToPosts for Vec<PartialPost> {
    fn to_posts(self) -> (r: Vec<Post>)
        ensures
            r.len() == self.len(),
            forall|i: int| 0 <= i < r.len() ==> shows_post(#[trigger] r@[i], self@[i]),
            forall|i: int|
                0 <= i < r.len() ==> {
                    &&& (#[trigger] r@[i]).id == self@[i].id
                    &&& r@[i].title@ == self@[i].title@
                    &&& r@[i].slug@ == self@[i].slug@
                    &&& r@[i].description@ == self@[i].summary@
                    &&& ymd_of_timestamp(self@[i].date as int) == Some(r@[i].date@)
                    &&& r@[i].tags@.map_values(|t: String| t@) == split_on(
                        self@[i].tags@,
                        ',',
                    ).map_values(|p: Seq<char>| strip_white_space(p))
                },
    {
        let mut r: Vec<Post> = Vec::new();
        let n = self.len();
        for i in 0..n
            invariant
                n == self.len(),
                r.len() == i,
                forall|j: int| 0 <= j < i ==> shows_post(#[trigger] r@[j], self@[j]),
        {
            let m = &self[i];
            let date = match timestamp_ymd(m.date as i64) {
                Some(d) => d,
                None => {
                    assert(false);
                    String::new()
                },
            };
            let p = Post::new(
                m.id,
                m.title.clone(),
                m.slug.clone(),
                date,
                m.summary.clone(),
                compacted_tags(m.tags.as_str()),
            );
            r.push(p);
        }
        r
    }
}

/// The rules of a new post, field by field; the slug's own check is the custom
/// slug rule, whose verdict comes in as `slug`.
pub open spec fn post_form_issues(
    title: Seq<char>,
    seo_title: Seq<char>,
    slug: Result<(), (Seq<char>, Option<Seq<char>>)>,
    slug_value: Seq<char>,
    summary: Seq<char>,
    photo_url: Seq<char>,
    tags: Seq<char>,
    content: Seq<char>,
    cf_turnstile_response: Seq<char>,
) -> Seq<Issue> {
    length_issue(
        "title"@,
        title,
        Some(5),
        Some(50),
        "title must be between 5 and 50 characters"@,
    ) + length_issue(
        "seo_title"@,
        seo_title,
        Some(5),
        Some(255),
        "seo_title must be between 5 and 255 characters"@,
    ) + custom_issue("slug"@, slug, slug_value) + length_issue(
        "summary"@,
        summary,
        Some(50),
        Some(160),
        "summary must be between 50 and 160 characters"@,
    ) + length_issue(
        "photo_url"@,
        photo_url,
        None,
        Some(255),
        "photo_url must be less than 255 characters"@,
    ) + length_issue("tags"@, tags, None, Some(50), "tags must be less than 50 characters"@)
        + length_issue(
        "content"@,
        content,
        None,
        Some(100_000),
        "content must be less than 100_000 characters"@,
    ) + length_issue("cf-turnstile-response"@, cf_turnstile_response, Some(1), None, "not valid"@)
}

fn check_post_form(
    title: &str,
    seo_title: &str,
    slug: &Result<(), ValidationError>,
    slug_value: &str,
    summary: &str,
    photo_url: &str,
    tags: &str,
    content: &str,
    cf_turnstile_response: &str,
) -> (r: Result<(), ValidationErrors>)
    ensures
        r is Ok <==> post_form_issues(
            title@,
            seo_title@,
            verdict_view(*slug),
            slug_value@,
            summary@,
            photo_url@,
            tags@,
            content@,
            cf_turnstile_response@,
        ).len() == 0,
        r matches Err(e) ==> e@ == post_form_issues(
            title@,
            seo_title@,
            verdict_view(*slug),
            slug_value@,
            summary@,
            photo_url@,
            tags@,
            content@,
            cf_turnstile_response@,
        ),
{
    let mut errs = ValidationErrors::new();
    errs.check_length("title", title, Some(5), Some(50), "title must be between 5 and 50 characters");
    errs.check_length(
        "seo_title",
        seo_title,
        Some(5),
        Some(255),
        "seo_title must be between 5 and 255 characters",
    );
    errs.check_custom("slug", slug, slug_value);
    errs.check_length(
        "summary",
        summary,
        Some(50),
        Some(160),
        "summary must be between 50 and 160 characters",
    );
    errs.check_length(
        "photo_url",
        photo_url,
        None,
        Some(255),
        "photo_url must be less than 255 characters",
    );
    errs.check_length("tags", tags, None, Some(50), "tags must be less than 50 characters");
    errs.check_length(
        "content",
        content,
        None,
        Some(100_000),
        "content must be less than 100_000 characters",
    );
    errs.check_length("cf-turnstile-response", cf_turnstile_response, Some(1), None, "not valid");
    assert(errs@ =~= post_form_issues(
        title@,
        seo_title@,
        verdict_view(*slug),
        slug_value@,
        summary@,
        photo_url@,
        tags@,
        content@,
        cf_turnstile_response@,
    ));
    errs.into_result()
}

pub struct AddPost {
    pub title: String,
    pub seo_title: String,
    pub slug: String,
    pub summary: String,
    pub photo_url: String,
    pub tags: String,
    pub content: String,
    pub password: String,
    pub cf_turnstile_response: String,
    pub date: u64,
}

impl AddPost {
    pub open spec fn issues(&self, slug: Result<(), (Seq<char>, Option<Seq<char>>)>) -> Seq<
        Issue,
    > {
        post_form_issues(
            self.title@,
            self.seo_title@,
            slug,
            self.slug@,
            self.summary@,
            self.photo_url@,
            self.tags@,
            self.content@,
            self.cf_turnstile_response@,
        )
    }

    /// Checks every field; `slug` is the custom slug rule's verdict on `self.slug`.
    pub fn validate(&self, slug: &Result<(), ValidationError>) -> (r: Result<(), ValidationErrors>)
        ensures
            r is Ok <==> self.issues(verdict_view(*slug)).len() == 0,
            r matches Err(e) ==> e@ == self.issues(verdict_view(*slug)),
            r is Ok <==> (5 <= self.title@.len() <= 50 && 5 <= self.seo_title@.len() <= 255
                && slug is Ok && 50 <= self.summary@.len() <= 160 && self.photo_url@.len() <= 255
                && self.tags@.len() <= 50 && self.content@.len() <= 100_000
                && self.cf_turnstile_response@.len() >= 1),
    {
        check_post_form(
            self.title.as_str(),
            self.seo_title.as_str(),
            slug,
            self.slug.as_str(),
            self.summary.as_str(),
            self.photo_url.as_str(),
            self.tags.as_str(),
            self.content.as_str(),
            self.cf_turnstile_response.as_str(),
        )
    }
}

pub struct EditPost {
    pub id: i32,
    pub date: u64,
    pub title: String,
    pub seo_title: String,
    pub slug: String,
    pub summary: String,
    pub photo_url: String,
    pub tags: String,
    pub content: String,
    pub password: String,
    pub cf_turnstile_response: String,
}

impl EditPost {
    pub open spec fn issues(&self, slug: Result<(), (Seq<char>, Option<Seq<char>>)>) -> Seq<
        Issue,
    > {
        post_form_issues(
            self.title@,
            self.seo_title@,
            slug,
            self.slug@,
            self.summary@,
            self.photo_url@,
            self.tags@,
            self.content@,
            self.cf_turnstile_response@,
        )
    }

    /// Checks every field; `slug` is the custom slug rule's verdict on `self.slug`.
    pub fn validate(&self, slug: &Result<(), ValidationError>) -> (r: Result<(), ValidationErrors>)
        ensures
            r is Ok <==> self.issues(verdict_view(*slug)).len() == 0,
            r matches Err(e) ==> e@ == self.issues(verdict_view(*slug)),
            r is Ok <==> (5 <= self.title@.len() <= 50 && 5 <= self.seo_title@.len() <= 255
                && slug is Ok && 50 <= self.summary@.len() <= 160 && self.photo_url@.len() <= 255
                && self.tags@.len() <= 50 && self.content@.len() <= 100_000
                && self.cf_turnstile_response@.len() >= 1),
    {
        check_post_form(
            self.title.as_str(),
            self.seo_title.as_str(),
            slug,
            self.slug.as_str(),
            self.summary.as_str(),
            self.photo_url.as_str(),
            self.tags.as_str(),
            self.content.as_str(),
            self.cf_turnstile_response.as_str(),
        )
    }
}

pub struct DelPost {
    pub slug: String,
    pub password: String,
    pub cf_turnstile_response: String,
}

impl DelPost {
    pub open spec fn issues(&self, slug: Result<(), (Seq<char>, Option<Seq<char>>)>) -> Seq<
        Issue,
    > {
        custom_issue("slug"@, slug, self.slug@) + length_issue(
            "cf-turnstile-response"@,
            self.cf_turnstile_response@,
            Some(1),
            None,
            "not valid"@,
        )
    }

    /// Checks every field; `slug` is the custom slug rule's verdict on `self.slug`.
    pub fn validate(&self, slug: &Result<(), ValidationError>) -> (r: Result<(), ValidationErrors>)
        ensures
            r is Ok <==> self.issues(verdict_view(*slug)).len() == 0,
            r matches Err(e) ==> e@ == self.issues(verdict_view(*slug)),
            r is Ok <==> (slug is Ok && self.cf_turnstile_response@.len() >= 1),
    {
        let mut errs = ValidationErrors::new();
        errs.check_custom("slug", slug, self.slug.as_str());
        errs.check_length(
            "cf-turnstile-response",
            self.cf_turnstile_response.as_str(),
            Some(1),
            None,
            "not valid",
        );
        assert(errs@ =~= self.issues(verdict_view(*slug)));
        errs.into_result()
    }
}

/// A post's id, UNIX date and slug, as the sitemap lists them.
pub struct PartialPostWithSlug {
    pub id: i32,
    pub date: i32,
    pub slug: String,
}

/// A list of tags holds one tag more than it has commas, and no tag holds a
/// comma or white space.
pub proof fn lemma_compact_tags(tags: Seq<char>)
    ensures
        compact_tags(tags).len() == count_char(tags, ',') + 1,
        forall|i: int, j: int|
            0 <= i < compact_tags(tags).len() && 0 <= j < compact_tags(tags)[i].len() ==> {
                let c = #[trigger] compact_tags(tags)[i][j];
                c != ',' && !is_white_space(c)
            },
{
    lemma_split_len(tags, ',');
    lemma_split_pieces_free_of_sep(tags, ',');
    let pieces = split_on(tags, ',');
    assert forall|i: int, j: int|
        0 <= i < compact_tags(tags).len() && 0 <= j < compact_tags(tags)[i].len() implies {
            let c = #[trigger] compact_tags(tags)[i][j];
            c != ',' && !is_white_space(c)
        } by {
        lemma_strip_white_space(pieces[i]);
        assert(compact_tags(tags)[i] == strip_white_space(pieces[i]));
        let k = choose|k: int| 0 <= k < pieces[i].len() && pieces[i][k] == compact_tags(tags)[i][j];
        assert(pieces[i][k] != ',');
    }
}

/// The rules of a post form, field by field: a title of 5 to 50 characters, an
/// SEO title of 5 to 255, a slug the slug rule accepts, a summary of 50 to 160,
/// a photo URL of at most 255, tags of at most 50, content of at most 100 000,
/// and a captcha answer. A form passes exactly when all of them hold.
pub proof fn lemma_post_form_rules(
    title: Seq<char>,
    seo_title: Seq<char>,
    slug: Result<(), (Seq<char>, Option<Seq<char>>)>,
    slug_value: Seq<char>,
    summary: Seq<char>,
    photo_url: Seq<char>,
    tags: Seq<char>,
    content: Seq<char>,
    cf_turnstile_response: Seq<char>,
)
    ensures
        post_form_issues(
            title,
            seo_title,
            slug,
            slug_value,
            summary,
            photo_url,
            tags,
            content,
            cf_turnstile_response,
        ).len() == 0 <==> (5 <= title.len() <= 50 && 5 <= seo_title.len() <= 255 && slug is Ok
            && 50 <= summary.len() <= 160 && photo_url.len() <= 255 && tags.len() <= 50
            && content.len() <= 100_000 && cf_turnstile_response.len() >= 1),
{
}

} // verus!
