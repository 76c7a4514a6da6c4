//! The sitemap: its entries and its XML.
use vstd::prelude::*;
use crate::model::post::PartialPostWithSlug;
use crate::text::{decimal, push_char, push_decimal, str_starts_with};
use crate::time::{rfc3339_of_timestamp, timestamp_rfc3339};

verus! {

/// One `<url>` of the sitemap.
pub struct UrlEntry {
    pub location: String,
    pub last_modified: String,
    pub change_frequency: String,
    pub priority: String,
}

/// The full address of a site path: the domain, a `/`, and the path without
/// the `/` it may start with.
pub open spec fn site_location(domain: Seq<char>, location: Seq<char>) -> Seq<char> {
    if "/"@.is_prefix_of(location) {
        domain + location
    } else {
        domain + "/"@ + location
    }
}

impl UrlEntry {
    pub fn new(
        domain: &str,
        location: &str,
        last_modified: &str,
        change_frequency: &str,
        priority: &str,
    ) -> (e: Self)
        ensures
            e.location@ == site_location(domain@, location@),
            e.last_modified@ == last_modified@,
            e.change_frequency@ == change_frequency@,
            e.priority@ == priority@,
            location@.len() > 0 && location@[0] == '/' ==> e.location@ == domain@ + location@,
            !(location@.len() > 0 && location@[0] == '/') ==> e.location@ == domain@ + "/"@
                + location@,
    {
        proof {
            reveal_strlit("/");
            if location@.len() > 0 && location@[0] == '/' {
                assert(location@.subrange(0, 1) =~= "/"@);
            }
            if "/"@.is_prefix_of(location@) {
                assert(location@[0] == "/"@[0]);
            }
        }
        let mut full = String::from_str(domain);
        if !str_starts_with(location, "/") {
            full.append("/");
        }
        full.append(location);
        UrlEntry {
            location: full,
            last_modified: String::from_str(last_modified),
            change_frequency: String::from_str(change_frequency),
            priority: String::from_str(priority),
        }
    }
}

/// A sitemap entry seen as its four texts.
pub type EntryView = (Seq<char>, Seq<char>, Seq<char>, Seq<char>);

pub open spec fn entry_view(e: UrlEntry) -> EntryView {
    (e.location@, e.last_modified@, e.change_frequency@, e.priority@)
}

pub open spec fn entries_view(v: Seq<UrlEntry>) -> Seq<EntryView> {
    v.map_values(|e: UrlEntry| entry_view(e))
}

/// The entry of one post: `/posts/{slug}`, last changed when it was published,
/// monthly, priority 0.8.
pub open spec fn post_entry(domain: Seq<char>, p: PartialPostWithSlug) -> EntryView {
    (
        site_location(domain, "/posts/"@ + p.slug@),
        rfc3339_of_timestamp(p.date as int)->0,
        "monthly"@,
        "0.8"@,
    )
}

pub trait ToEntry {
    fn to_entry(&self, domain: &str) -> Vec<UrlEntry>;
}

impl ToEntry for Vec<PartialPostWithSlug> {
    fn to_entry(&self, domain: &str) -> (r: Vec<UrlEntry>)
        ensures
            entries_view(r@) == self@.map_values(|p: PartialPostWithSlug| post_entry(domain@, p)),
    {
        let mut r: Vec<UrlEntry> = Vec::new();
        let n = self.len();
        for i in 0..n
            invariant
                n == self.len(),
                entries_view(r@) == self@.take(i as int).map_values(
                    |p: PartialPostWithSlug| post_entry(domain@, p),
                ),
        {
            let post = &self[i];
            let mut path = String::from_str("/posts/");
            path.append(post.slug.as_str());
            let date = match timestamp_rfc3339(post.date as i64) {
                Some(d) => d,
                None => {
                    assert(false);
                    String::new()
                },
            };
            let e = UrlEntry::new(domain, path.as_str(), date.as_str(), "monthly", "0.8");
            let ghost before = entries_view(r@);
            r.push(e);
            assert(entries_view(r@) =~= before.push(post_entry(domain@, *post)));
            assert(self@.take(i + 1) =~= self@.take(i as int).push(*post));
            assert(entries_view(r@) =~= self@.take(i + 1).map_values(
                |p: PartialPostWithSlug| post_entry(domain@, p),
            ));
        }
        assert(self@.take(n as int) =~= self@);
        r
    }
}

/// The number of blog pages for `total` posts, `per_page` to a page: the
/// quotient rounded up.
pub open spec fn pages_for(total: nat, per_page: nat) -> nat {
    if total % per_page == 0 {
        total / per_page
    } else {
        total / per_page + 1
    }
}

/// The number of blog pages. Dividing in `f64` and rounding up, as the site
/// does, is this quotient exactly while the total fits a double's 53-bit
/// mantissa.
pub fn page_count(total: u64, per_page: u64) -> (pages: u64)
    requires
        per_page > 0,
        total <= 0x20_0000_0000_0000,
    ensures
        pages == pages_for(total as nat, per_page as nat),
        total <= pages * per_page,
        pages > 0 ==> (pages - 1) * per_page < total,
{
    proof {
        lemma_pages_cover(total as nat, per_page as nat);
    }
    let q = total / per_page;
    if total % per_page == 0 {
        q
    } else {
        q + 1
    }
}

/// The entry of blog page `i`: `/blog/{i}`, last changed on `date`, monthly, priority 0.8.
pub open spec fn blog_entry(domain: Seq<char>, i: nat, date: Seq<char>) -> EntryView {
    (site_location(domain, "/blog/"@ + decimal(i)), date, "monthly"@, "0.8"@)
}

/// All sitemap entries: the home page and the about page, one entry per post,
/// then one per blog page with the date on which that page last changed.
pub open spec fn sitemap_entries_spec(
    domain: Seq<char>,
    posts: Seq<PartialPostWithSlug>,
    pages: nat,
    last_modified: Seq<Seq<char>>,
) -> Seq<EntryView> {
    seq![
        (site_location(domain, "/"@), "2025-04-13"@, "monthly"@, "1.0"@),
        (site_location(domain, "/about"@), "2025-04-13"@, "monthly"@, "0.8"@),
    ] + posts.map_values(|p: PartialPostWithSlug| post_entry(domain, p)) + Seq::new(
        pages,
        |i: int| blog_entry(domain, (i + 1) as nat, last_modified[i]),
    )
}

/// The entries of the sitemap; `last_modified` holds at least one date per blog page.
pub fn sitemap_entries(
    domain: &str,
    posts: &Vec<PartialPostWithSlug>,
    pages: u64,
    last_modified: &Vec<String>,
) -> (r: Vec<UrlEntry>)
    requires
        last_modified.len() >= pages,
    ensures
        entries_view(r@) == sitemap_entries_spec(
            domain@,
            posts@,
            pages as nat,
            last_modified@.map_values(|s: String| s@),
        ),
        r@.len() == 2 + posts@.len() + pages,
        entry_view(r@[0]) == (domain@ + "/"@, "2025-04-13"@, "monthly"@, "1.0"@),
        entry_view(r@[1]) == (domain@ + "/about"@, "2025-04-13"@, "monthly"@, "0.8"@),
        forall|j: int|
            0 <= j < posts@.len() ==> #[trigger] entry_view(r@[2 + j]) == (
                domain@ + "/posts/"@ + posts@[j].slug@,
                rfc3339_of_timestamp(posts@[j].date as int)->0,
                "monthly"@,
                "0.8"@,
            ),
        forall|k: int|
            0 <= k < pages ==> #[trigger] entry_view(r@[2 + posts@.len() + k]) == (
                domain@ + "/blog/"@ + decimal((k + 1) as nat),
                last_modified@[k]@,
                "monthly"@,
                "0.8"@,
            ),
{
    let mut urls: Vec<UrlEntry> = Vec::new();
    urls.push(UrlEntry::new(domain, "/", "2025-04-13", "monthly", "1.0"));
    urls.push(UrlEntry::new(domain, "/about", "2025-04-13", "monthly", "0.8"));
    let mut post_entries = posts.to_entry(domain);
    let ghost head = entries_view(urls@);
    let ghost mid = entries_view(post_entries@);
    urls.append(&mut post_entries);
    assert(entries_view(urls@) =~= head + mid);
    let ghost start = entries_view(urls@);
    let ghost dates = last_modified@.map_values(|s: String| s@);
    for j in 0..pages
        invariant
            pages <= last_modified.len(),
            dates == last_modified@.map_values(|s: String| s@),
            entries_view(urls@) == start + Seq::new(
                j as nat,
                |k: int| blog_entry(domain@, (k + 1) as nat, dates[k]),
            ),
    {
        let i = j + 1;
        let mut path = String::from_str("/blog/");
        push_decimal(&mut path, i);
        let e = UrlEntry::new(
            domain,
            path.as_str(),
            last_modified[j as usize].as_str(),
            "monthly",
            "0.8",
        );
        let ghost before = entries_view(urls@);
        urls.push(e);
        assert(entries_view(urls@) =~= before.push(blog_entry(domain@, i as nat, dates[j as int])));
        assert(entries_view(urls@) =~= start + Seq::new(
            i as nat,
            |k: int| blog_entry(domain@, (k + 1) as nat, dates[k]),
        ));
    }
    assert(entries_view(urls@) =~= sitemap_entries_spec(domain@, posts@, pages as nat, dates));
    proof {
        lemma_sitemap_layout(domain@, posts@, pages as nat, dates);
        assert forall|j: int| 0 <= j < posts@.len() implies #[trigger] entry_view(urls@[2 + j])
            == (
            domain@ + "/posts/"@ + posts@[j].slug@,
            rfc3339_of_timestamp(posts@[j].date as int)->0,
            "monthly"@,
            "0.8"@,
        ) by {
            assert(entry_view(urls@[2 + j]) == entries_view(urls@)[2 + j]);
        }
        assert forall|k: int| 0 <= k < pages implies #[trigger] entry_view(
            urls@[2 + posts@.len() + k],
        ) == (domain@ + "/blog/"@ + decimal((k + 1) as nat), last_modified@[k]@, "monthly"@, "0.8"@) by {
            assert(entry_view(urls@[2 + posts@.len() + k]) == entries_view(urls@)[2 + posts@.len() + k]);
            assert(dates[k] == last_modified@[k]@);
        }
        assert(entry_view(urls@[0]) == entries_view(urls@)[0]);
        assert(entry_view(urls@[1]) == entries_view(urls@)[1]);
    }
    urls
}

/// The layout of the sitemap: the home page, the about page, then each post at
/// `/posts/{slug}` dated when it was published, then each blog page `k + 1` at
/// `/blog/{k + 1}` dated with the `k`-th date that was recorded for it.
pub proof fn lemma_sitemap_layout(
    domain: Seq<char>,
    posts: Seq<PartialPostWithSlug>,
    pages: nat,
    last_modified: Seq<Seq<char>>,
)
    ensures
        sitemap_entries_spec(domain, posts, pages, last_modified).len() == 2 + posts.len() + pages,
        sitemap_entries_spec(domain, posts, pages, last_modified)[0] == (
            domain + "/"@,
            "2025-04-13"@,
            "monthly"@,
            "1.0"@,
        ),
        sitemap_entries_spec(domain, posts, pages, last_modified)[1] == (
            domain + "/about"@,
            "2025-04-13"@,
            "monthly"@,
            "0.8"@,
        ),
        forall|j: int|
            0 <= j < posts.len() ==> #[trigger] sitemap_entries_spec(
                domain,
                posts,
                pages,
                last_modified,
            )[2 + j] == (
                domain + "/posts/"@ + posts[j].slug@,
                rfc3339_of_timestamp(posts[j].date as int)->0,
                "monthly"@,
                "0.8"@,
            ),
        forall|k: int|
            0 <= k < pages ==> #[trigger] sitemap_entries_spec(
                domain,
                posts,
                pages,
                last_modified,
            )[2 + posts.len() + k] == (
                domain + "/blog/"@ + decimal((k + 1) as nat),
                last_modified[k],
                "monthly"@,
                "0.8"@,
            ),
{
    reveal_strlit("/");
    reveal_strlit("/about");
    reveal_strlit("/posts/");
    reveal_strlit("/blog/");
    let e = sitemap_entries_spec(domain, posts, pages, last_modified);
    assert("/"@.is_prefix_of("/"@));
    assert("/"@.is_prefix_of("/about"@));
    assert forall|j: int| 0 <= j < posts.len() implies #[trigger] e[2 + j] == (
        domain + "/posts/"@ + posts[j].slug@,
        rfc3339_of_timestamp(posts[j].date as int)->0,
        "monthly"@,
        "0.8"@,
    ) by {
        let l = "/posts/"@ + posts[j].slug@;
        assert(l.subrange(0, 1) =~= "/"@);
        assert(domain + l =~= domain + "/posts/"@ + posts[j].slug@);
    }
    assert forall|k: int| 0 <= k < pages implies #[trigger] e[2 + posts.len() + k] == (
        domain + "/blog/"@ + decimal((k + 1) as nat),
        last_modified[k],
        "monthly"@,
        "0.8"@,
    ) by {
        let l = "/blog/"@ + decimal((k + 1) as nat);
        assert(l.subrange(0, 1) =~= "/"@);
        assert(domain + l =~= domain + "/blog/"@ + decimal((k + 1) as nat));
    }
}

/// How XML writes one character: the five markup characters as entities, any
/// other as itself.
pub open spec fn xml_char(c: char) -> Seq<char> {
    if c == '&' {
        "&amp;"@
    } else if c == '<' {
        "&lt;"@
    } else if c == '>' {
        "&gt;"@
    } else if c == '"' {
        "&quot;"@
    } else if c == '\'' {
        "&apos;"@
    } else {
        seq![c]
    }
}

/// `s` written as XML character data.
pub open spec fn xml_escaped(s: Seq<char>) -> Seq<char>
    decreases s.len(),
{
    if s.len() == 0 {
        Seq::empty()
    } else {
        xml_escaped(s.drop_last()) + xml_char(s.last())
    }
}

/// Escapes the characters that XML gives a meaning.
pub fn escape_xml(s: &str) -> (r: String)
    ensures
        r@ == xml_escaped(s@),
{
    let mut r = String::new();
    for c in it: s.chars()
        invariant
            it.seq() == s@,
            r@ == xml_escaped(s@.take(it.index() as int)),
    {
        let ghost before = s@.take(it.index() as int);
        proof {
            assert(s@.take(it.index() + 1).drop_last() =~= before);
        }
        if c == '&' {
            r.append("&amp;");
        } else if c == '<' {
            r.append("&lt;");
        } else if c == '>' {
            r.append("&gt;");
        } else if c == '"' {
            r.append("&quot;");
        } else if c == '\'' {
            r.append("&apos;");
        } else {
            push_char(&mut r, c);
        }
    }
    assert(s@.take(s@.len() as int) =~= s@);
    r
}

/// The start of the sitemap document.
pub open spec fn sitemap_head() -> Seq<char> {
    "<?xml version=\"1.0\" encoding=\"UTF-8\"?>\n"@
        + "<urlset xmlns=\"http://www.sitemaps.org/schemas/sitemap/0.9\">\n"@
}

/// The `<url>` element of one entry; only the location is escaped.
pub open spec fn url_element(e: EntryView) -> Seq<char> {
    "  <url>\n"@ + "    <loc>"@ + xml_escaped(e.0) + "</loc>\n"@ + "    <lastmod>"@ + e.1
        + "</lastmod>\n"@ + "    <changefreq>"@ + e.2 + "</changefreq>\n"@ + "    <priority>"@
        + e.3 + "</priority>\n"@ + "  </url>\n"@
}

pub open spec fn url_elements(entries: Seq<EntryView>) -> Seq<char>
    decreases entries.len(),
{
    if entries.len() == 0 {
        Seq::empty()
    } else {
        url_elements(entries.drop_last()) + url_element(entries.last())
    }
}

/// The sitemap document of a list of entries.
pub open spec fn sitemap_xml(entries: Seq<EntryView>) -> Seq<char> {
    sitemap_head() + url_elements(entries) + "</urlset>"@
}

/// Writes the sitemap document.
pub fn render_sitemap(urls: &Vec<UrlEntry>) -> (xml: String)
    ensures
        xml@ == sitemap_xml(entries_view(urls@)),
        xml@ == "<?xml version=\"1.0\" encoding=\"UTF-8\"?>\n<urlset xmlns=\"http://www.sitemaps.org/schemas/sitemap/0.9\">\n"@
            + url_elements(entries_view(urls@)) + "</urlset>"@,
{
    let mut xml = String::from_str("<?xml version=\"1.0\" encoding=\"UTF-8\"?>\n");
    xml.append("<urlset xmlns=\"http://www.sitemaps.org/schemas/sitemap/0.9\">\n");
    let ghost head = xml@;
    let n = urls.len();
    for i in 0..n
        invariant
            n == urls.len(),
            head == sitemap_head(),
            xml@ == head + url_elements(entries_view(urls@).take(i as int)),
    {
        let url = &urls[i];
        let ghost before = xml@;
        xml.append("  <url>\n");
        xml.append("    <loc>");
        let loc = escape_xml(url.location.as_str());
        xml.append(loc.as_str());
        xml.append("</loc>\n");
        xml.append("    <lastmod>");
        xml.append(url.last_modified.as_str());
        xml.append("</lastmod>\n");
        xml.append("    <changefreq>");
        xml.append(url.change_frequency.as_str());
        xml.append("</changefreq>\n");
        xml.append("    <priority>");
        xml.append(url.priority.as_str());
        xml.append("</priority>\n");
        xml.append("  </url>\n");
        proof {
            assert(xml@ =~= before + url_element(entry_view(*url)));
            assert(entries_view(urls@).take(i + 1).drop_last() =~= entries_view(urls@).take(
                i as int,
            ));
            assert(entries_view(urls@).take(i + 1).last() == entry_view(*url));
        }
    }
    xml.append("</urlset>");
    assert(entries_view(urls@).take(n as int) =~= entries_view(urls@));
    proof {
        reveal_strlit("<?xml version=\"1.0\" encoding=\"UTF-8\"?>\n");
        reveal_strlit("<urlset xmlns=\"http://www.sitemaps.org/schemas/sitemap/0.9\">\n");
        reveal_strlit(
            "<?xml version=\"1.0\" encoding=\"UTF-8\"?>\n<urlset xmlns=\"http://www.sitemaps.org/schemas/sitemap/0.9\">\n",
        );
        assert(sitemap_head() =~= "<?xml version=\"1.0\" encoding=\"UTF-8\"?>\n<urlset xmlns=\"http://www.sitemaps.org/schemas/sitemap/0.9\">\n"@);
    }
    xml
}

/// Every address in the sitemap lies on the site's domain.
pub proof fn lemma_location_on_domain(domain: Seq<char>, location: Seq<char>)
    ensures
        domain.is_prefix_of(site_location(domain, location)),
{
    let l = site_location(domain, location);
    assert(l.subrange(0, domain.len() as int) =~= domain);
}

/// A path names the same address with or without its leading `/`.
pub proof fn lemma_leading_slash(domain: Seq<char>, path: Seq<char>)
    requires
        !"/"@.is_prefix_of(path),
    ensures
        site_location(domain, "/"@ + path) == site_location(domain, path),
{
    reveal_strlit("/");
    assert(("/"@ + path).subrange(0, 1) =~= "/"@);
    assert(domain + ("/"@ + path) =~= domain + "/"@ + path);
}

/// Escaped text holds none of the characters that end or open markup.
pub proof fn lemma_escaped_is_plain(s: Seq<char>)
    ensures
        forall|i: int|
            0 <= i < xml_escaped(s).len() ==> {
                let c = #[trigger] xml_escaped(s)[i];
                c != '<' && c != '>' && c != '"' && c != '\''
            },
    decreases s.len(),
{
    reveal_strlit("&amp;");
    reveal_strlit("&lt;");
    reveal_strlit("&gt;");
    reveal_strlit("&quot;");
    reveal_strlit("&apos;");
    if s.len() > 0 {
        lemma_escaped_is_plain(s.drop_last());
        let prev = xml_escaped(s.drop_last());
        let tail = xml_char(s.last());
        assert forall|i: int| 0 <= i < xml_escaped(s).len() implies {
            let c = #[trigger] xml_escaped(s)[i];
            c != '<' && c != '>' && c != '"' && c != '\''
        } by {
            if i < prev.len() {
                assert(xml_escaped(s)[i] == prev[i]);
            } else {
                assert(xml_escaped(s)[i] == tail[i - prev.len()]);
            }
        }
    }
}

/// Escaping works character by character: escaping a text in two parts is
/// escaping each part, the five markup characters become `&amp;`, `&lt;`,
/// `&gt;`, `&quot;` and `&apos;`, and every other character stays as it is.
pub proof fn lemma_escape_by_char(a: Seq<char>, b: Seq<char>, c: char)
    ensures
        xml_escaped(a + b) == xml_escaped(a) + xml_escaped(b),
        xml_escaped(seq![c]) == (if c == '&' {
            "&amp;"@
        } else if c == '<' {
            "&lt;"@
        } else if c == '>' {
            "&gt;"@
        } else if c == '"' {
            "&quot;"@
        } else if c == '\'' {
            "&apos;"@
        } else {
            seq![c]
        }),
    decreases b.len(),
{
    assert(seq![c].drop_last() =~= Seq::<char>::empty());
    assert(seq![c].last() == c);
    assert(xml_escaped(seq![c].drop_last()) =~= Seq::<char>::empty());
    assert(xml_escaped(seq![c]) =~= xml_char(c));
    if b.len() == 0 {
        assert(a + b =~= a);
    } else {
        lemma_escape_by_char(a, b.drop_last(), c);
        assert((a + b).drop_last() =~= a + b.drop_last());
        assert((a + b).last() == b.last());
    }
}

/// The elements of the sitemap follow its entries one for one: the elements of
/// two runs of entries are those of the first run followed by those of the
/// second, and one entry gives its location (escaped), date, change frequency
/// and priority in a `<url>` element.
pub proof fn lemma_url_elements(a: Seq<EntryView>, b: Seq<EntryView>, e: EntryView)
    ensures
        url_elements(a + b) == url_elements(a) + url_elements(b),
        url_elements(seq![e]) == "  <url>\n    <loc>"@ + xml_escaped(e.0) + "</loc>\n    <lastmod>"@
            + e.1 + "</lastmod>\n    <changefreq>"@ + e.2 + "</changefreq>\n    <priority>"@ + e.3
            + "</priority>\n  </url>\n"@,
    decreases b.len(),
{
    assert(seq![e].drop_last() =~= Seq::<EntryView>::empty());
    reveal_strlit("  <url>\n    <loc>");
    reveal_strlit("  <url>\n");
    reveal_strlit("    <loc>");
    reveal_strlit("</loc>\n    <lastmod>");
    reveal_strlit("</loc>\n");
    reveal_strlit("    <lastmod>");
    reveal_strlit("</lastmod>\n    <changefreq>");
    reveal_strlit("</lastmod>\n");
    reveal_strlit("    <changefreq>");
    reveal_strlit("</changefreq>\n    <priority>");
    reveal_strlit("</changefreq>\n");
    reveal_strlit("    <priority>");
    reveal_strlit("</priority>\n  </url>\n");
    reveal_strlit("</priority>\n");
    reveal_strlit("  </url>\n");
    assert(seq![e].last() == e);
    assert(url_elements(seq![e].drop_last()) =~= Seq::<char>::empty());
    assert(url_elements(seq![e]) =~= url_element(e));
    assert("  <url>\n"@ + "    <loc>"@ =~= "  <url>\n    <loc>"@);
    assert("</loc>\n"@ + "    <lastmod>"@ =~= "</loc>\n    <lastmod>"@);
    assert("</lastmod>\n"@ + "    <changefreq>"@ =~= "</lastmod>\n    <changefreq>"@);
    assert("</changefreq>\n"@ + "    <priority>"@ =~= "</changefreq>\n    <priority>"@);
    assert("</priority>\n"@ + "  </url>\n"@ =~= "</priority>\n  </url>\n"@);
    assert(url_elements(seq![e]) =~= "  <url>\n    <loc>"@ + xml_escaped(e.0)
        + "</loc>\n    <lastmod>"@ + e.1 + "</lastmod>\n    <changefreq>"@ + e.2
        + "</changefreq>\n    <priority>"@ + e.3 + "</priority>\n  </url>\n"@);
    if b.len() == 0 {
        assert(a + b =~= a);
    } else {
        lemma_url_elements(a, b.drop_last(), e);
        assert((a + b).drop_last() =~= a + b.drop_last());
        assert((a + b).last() == b.last());
    }
}

/// The blog pages hold all posts and no page is empty: `pages` pages of
/// `per_page` posts reach `total`, and one page fewer does not.
pub proof fn lemma_pages_cover(total: nat, per_page: nat)
    requires
        per_page > 0,
    ensures
        total <= pages_for(total, per_page) * per_page,
        pages_for(total, per_page) > 0 ==> (pages_for(total, per_page) - 1) * per_page < total,
{
    let q = total / per_page;
    let r = total % per_page;
    assert(total == q * per_page + r) by (nonlinear_arith)
        requires
            per_page > 0,
            q == total / per_page,
            r == total % per_page,
    ;
    assert(r < per_page) by (nonlinear_arith)
        requires
            per_page > 0,
            r == total % per_page,
    ;
    if r == 0 {
        assert(pages_for(total, per_page) == q);
        if q > 0 {
            assert((q - 1) * per_page == q * per_page - per_page) by (nonlinear_arith);
        }
    } else {
        assert(pages_for(total, per_page) == q + 1);
        assert((q + 1) * per_page == q * per_page + per_page) by (nonlinear_arith);
    }
}

} // verus!
