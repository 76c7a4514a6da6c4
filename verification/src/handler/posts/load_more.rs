//! The "load more" list of older posts.
use vstd::prelude::*;
use crate::model::post::Post;
use crate::validation::{Issue, ValidationErrors, range_issue};

verus! {

/// One more page of posts, the page to ask for next, and whether there is one.
pub struct LoadMore {
    pub posts: Vec<Post>,
    pub next_page: u64,
    pub has_more: bool,
}

/// The page asked for.
pub struct Payload {
    pub page: u64,
}

impl Payload {
    pub open spec fn issues(&self) -> Seq<Issue> {
        range_issue("page"@, self.page as nat, Some(1), None, None)
    }

    pub fn validate(&self) -> (r: Result<(), ValidationErrors>)
        ensures
            r is Ok <==> self.issues().len() == 0,
            r matches Err(e) ==> e@ == self.issues(),
            r is Ok <==> self.page >= 1,
    {
        let mut errs = ValidationErrors::new();
        errs.check_range("page", self.page, Some(1), None, None);
        assert(errs@ =~= self.issues());
        errs.into_result()
    }

    /// The page to show: the one asked for when it is valid, else the first.
    pub fn requested_page(&self) -> (page: u64)
        ensures
            page == (if self.page >= 1 { self.page } else { 1 }),
    {
        match self.validate() {
            Ok(()) => self.page,
            Err(_) => 1,
        }
    }
}

impl LoadMore {
    /// The list for `page` from the posts fetched for it: the fetch asks for one
    /// post more than a page holds, so more follow when it got more than
    /// `post_limit`; the last fetched post is dropped from the list.
    pub fn from_page(page: u64, posts: Vec<Post>, post_limit: usize) -> (r: Self)
        requires
            page < u64::MAX,
        ensures
            r.next_page == page + 1,
            r.has_more == (posts.len() > post_limit),
            r.posts@ == (if posts.len() > 0 { posts@.drop_last() } else { posts@ }),
    {
        let mut posts = posts;
        let has_more = posts.len() > post_limit;
        let _ = posts.pop();
        LoadMore { posts, next_page: page + 1, has_more }
    }
}

} // verus!
