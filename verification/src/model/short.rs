use vstd::prelude::*;
use chrono::NaiveDateTime;
use crate::validation::{
    Issue, ValidationError, ValidationErrors, custom_issue, is_url, length_issue, value_issue_if,
    verdict_view,
};

verus! {

/// A short link as shown: where it leads, its key, its description and how often it was used.
pub struct Link {
    pub long_url: String,
    pub key: String,
    pub description: String,
    pub views: u32,
}

/// A short link as the database stores it.
pub struct ShortModel {
    pub id: i32,
    pub long_url: String,
    pub key: String,
    pub description: String,
    pub views: i32,
    pub created_at: NaiveDateTime,
}

/// The link that a stored row shows.
pub open spec fn shows_link(l: Link, m: ShortModel) -> bool {
    &&& l.long_url == m.long_url
    &&& l.key == m.key
    &&& l.description == m.description
    &&& l.views == m.views
}

impl Link {
    /// A stored row as a link; a row never counts fewer than zero views.
    pub fn from(value: ShortModel) -> (l: Self)
        requires
            value.views >= 0,
        ensures
            shows_link(l, value),
            l.long_url == value.long_url && l.key == value.key && l.description == value.description
                && l.views == value.views,
    {
        Link {
            long_url: value.long_url,
            key: value.key,
            description: value.description,
            views: value.views as u32,
        }
    }
}

pub trait ToLinks: Sized {
    spec fn views_known(&self) -> bool;

    fn to_links(self) -> Vec<Link>
        requires
            self.views_known(),
    ;
}

impl ToLinks for Vec<ShortModel> {
    open spec fn views_known(&self) -> bool {
        forall|i: int| 0 <= i < self.len() ==> #[trigger] self@[i].views >= 0
    }

    fn to_links(self) -> (r: Vec<Link>)
        ensures
            r.len() == self.len(),
            forall|i: int| 0 <= i < r.len() ==> shows_link(#[trigger] r@[i], self@[i]),
            forall|i: int|
                0 <= i < r.len() ==> {
                    &&& (#[trigger] r@[i]).long_url == self@[i].long_url
                    &&& r@[i].key == self@[i].key
                    &&& r@[i].description == self@[i].description
                    &&& r@[i].views == self@[i].views
                },
    {
        let ghost rows = self@;
        let mut rows_left = self;
        let mut r: Vec<Link> = Vec::new();
        while rows_left.len() > 0
            invariant
                r.len() + rows_left.len() == rows.len(),
                rows_left@ == rows.skip(r.len() as int),
                forall|i: int| 0 <= i < rows.len() ==> #[trigger] rows[i].views >= 0,
                forall|i: int| 0 <= i < r.len() ==> shows_link(#[trigger] r@[i], rows[i]),
            decreases rows_left.len(),
        {
            let m = rows_left.remove(0);
            assert(m == rows[r.len() as int]);
            r.push(Link::from(m));
            assert(rows_left@ =~= rows.skip(r.len() as int));
        }
        r
    }
}

/// The key of a short link to check; its only rule is the custom slug rule.
pub struct ShortKey {
    pub key: String,
}

impl ShortKey {
    pub open spec fn issues(&self, key: Result<(), (Seq<char>, Option<Seq<char>>)>) -> Seq<Issue> {
        custom_issue("key"@, key, self.key@)
    }

    /// Checks the key; `key` is the custom slug rule's verdict on `self.key`.
    pub fn validate(&self, key: &Result<(), ValidationError>) -> (r: Result<(), ValidationErrors>)
        ensures
            r is Ok <==> self.issues(verdict_view(*key)).len() == 0,
            r matches Err(e) ==> e@ == self.issues(verdict_view(*key)),
            r is Ok <==> key is Ok,
    {
        let mut errs = ValidationErrors::new();
        errs.check_custom("key", key, self.key.as_str());
        assert(errs@ =~= self.issues(verdict_view(*key)));
        errs.into_result()
    }
}

/// The rules shared by both forms that add a short link.
pub open spec fn add_short_issues(
    long_url: Seq<char>,
    key: Result<(), (Seq<char>, Option<Seq<char>>)>,
    key_value: Seq<char>,
    description: Seq<char>,
) -> Seq<Issue> {
    value_issue_if(!is_url(long_url), "long_url"@, "url"@, None, long_url) + custom_issue(
        "key"@,
        key,
        key_value,
    )
        + length_issue(
        "description"@,
        description,
        Some(1),
        Some(160),
        "description must be between 1 and 160 characters"@,
    )
}

fn check_add_short(
    errs: &mut ValidationErrors,
    long_url: &str,
    key: &Result<(), ValidationError>,
    key_value: &str,
    description: &str,
)
    ensures
        final(errs)@ == old(errs)@ + add_short_issues(
            long_url@,
            verdict_view(*key),
            key_value@,
            description@,
        ),
{
    errs.check_url("long_url", long_url, None);
    errs.check_custom("key", key, key_value);
    errs.check_length(
        "description",
        description,
        Some(1),
        Some(160),
        "description must be between 1 and 160 characters",
    );
    assert(final(errs)@ =~= old(errs)@ + add_short_issues(
        long_url@,
        verdict_view(*key),
        key_value@,
        description@,
    ));
}

pub struct AddShort {
    pub long_url: String,
    pub key: String,
    pub description: String,
    pub password: String,
    pub cf_turnstile_response: String,
}

impl AddShort {
    pub open spec fn issues(&self, key: Result<(), (Seq<char>, Option<Seq<char>>)>) -> Seq<Issue> {
        add_short_issues(self.long_url@, key, self.key@, self.description@) + length_issue(
            "cf-turnstile-response"@,
            self.cf_turnstile_response@,
            Some(1),
            None,
            "not valid"@,
        )
    }

    /// Checks every field; `key` is the custom slug rule's verdict on `self.key`.
    pub fn validate(&self, key: &Result<(), ValidationError>) -> (r: Result<(), ValidationErrors>)
        ensures
            r is Ok <==> self.issues(verdict_view(*key)).len() == 0,
            r matches Err(e) ==> e@ == self.issues(verdict_view(*key)),
            r is Ok <==> (is_url(self.long_url@) && key is Ok && 1 <= self.description@.len() <= 160
                && self.cf_turnstile_response@.len() >= 1),
    {
        let mut errs = ValidationErrors::new();
        check_add_short(
            &mut errs,
            self.long_url.as_str(),
            key,
            self.key.as_str(),
            self.description.as_str(),
        );
        errs.check_length(
            "cf-turnstile-response",
            self.cf_turnstile_response.as_str(),
            Some(1),
            None,
            "not valid",
        );
        assert(errs@ =~= self.issues(verdict_view(*key)));
        errs.into_result()
    }
}

pub struct AddShortAPI {
    pub long_url: String,
    pub key: String,
    pub description: String,
}

impl AddShortAPI {
    pub open spec fn issues(&self, key: Result<(), (Seq<char>, Option<Seq<char>>)>) -> Seq<Issue> {
        add_short_issues(self.long_url@, key, self.key@, self.description@)
    }

    /// Checks every field; `key` is the custom slug rule's verdict on `self.key`.
    pub fn validate(&self, key: &Result<(), ValidationError>) -> (r: Result<(), ValidationErrors>)
        ensures
            r is Ok <==> self.issues(verdict_view(*key)).len() == 0,
            r matches Err(e) ==> e@ == self.issues(verdict_view(*key)),
            r is Ok <==> (is_url(self.long_url@) && key is Ok && 1 <= self.description@.len()
                <= 160),
    {
        let mut errs = ValidationErrors::new();
        check_add_short(
            &mut errs,
            self.long_url.as_str(),
            key,
            self.key.as_str(),
            self.description.as_str(),
        );
        assert(errs@ =~= self.issues(verdict_view(*key)));
        errs.into_result()
    }
}

pub struct DelShort {
    pub key: String,
    pub password: String,
    pub cf_turnstile_response: String,
}

impl DelShort {
    pub open spec fn issues(&self, key: Result<(), (Seq<char>, Option<Seq<char>>)>) -> Seq<Issue> {
        custom_issue("key"@, key, self.key@) + length_issue(
            "cf-turnstile-response"@,
            self.cf_turnstile_response@,
            Some(1),
            None,
            "not valid"@,
        )
    }

    /// Checks every field; `key` is the custom slug rule's verdict on `self.key`.
    pub fn validate(&self, key: &Result<(), ValidationError>) -> (r: Result<(), ValidationErrors>)
        ensures
            r is Ok <==> self.issues(verdict_view(*key)).len() == 0,
            r matches Err(e) ==> e@ == self.issues(verdict_view(*key)),
            r is Ok <==> (key is Ok && self.cf_turnstile_response@.len() >= 1),
    {
        let mut errs = ValidationErrors::new();
        errs.check_custom("key", key, self.key.as_str());
        errs.check_length(
            "cf-turnstile-response",
            self.cf_turnstile_response.as_str(),
            Some(1),
            None,
            "not valid",
        );
        assert(errs@ =~= self.issues(verdict_view(*key)));
        errs.into_result()
    }
}

} // verus!
