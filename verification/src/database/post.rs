use vstd::prelude::*;

verus! {

/// The order in which posts are paged through.
#[derive(PartialEq, Eq, Structural)]
pub enum Order {
    Asc,
    Desc,
}

/// Where page `page` (from one) starts: past the posts already shown when
/// `has_initial_data`, and past `post_limit` posts for each earlier page.
pub open spec fn page_offset(page: int, has_initial_data: bool, post_limit: int) -> int {
    (if has_initial_data { post_limit } else { 0 }) + (page - 1) * post_limit
}

/// The `LIMIT` and `OFFSET` of one page of posts. A page asks for one post more
/// than it shows, so that the reader learns whether more follow; pages count from
/// one, and when the first `post_limit` posts were already shown they are skipped.
pub fn page_window(page: u64, has_initial_data: bool, post_limit: u64) -> (r: (i64, i64))
    requires
        post_limit < i64::MAX,
        page <= i64::MAX,
        page * post_limit <= i64::MAX,
    ensures
        r.0 == post_limit + 1,
        r.1 == page_offset(page as int, has_initial_data, post_limit as int),
{
    let limit = post_limit as i64;
    let p = page as i64;
    proof {
        assert((page - 1) * post_limit == page * post_limit - post_limit) by (nonlinear_arith);
        assert((page - 1) * post_limit >= -(post_limit as int)) by (nonlinear_arith)
            requires
                page >= 0,
                post_limit >= 0,
        ;
    }
    let skipped = (p - 1) * limit;
    let offset = (if has_initial_data { limit } else { 0 }) + skipped;
    (limit + 1, offset)
}

/// Pages follow one another: each starts where the posts that the one before
/// shows end, and the first page after posts already shown starts past them.
pub proof fn lemma_pages_adjacent(page: int, has_initial_data: bool, post_limit: int)
    requires
        page >= 1,
        post_limit >= 0,
    ensures
        page_offset(page + 1, has_initial_data, post_limit) == page_offset(
            page,
            has_initial_data,
            post_limit,
        ) + post_limit,
        page_offset(1, has_initial_data, post_limit) == (if has_initial_data {
            post_limit
        } else {
            0
        }),
{
    assert(page * post_limit == (page - 1) * post_limit + post_limit) by (nonlinear_arith);
}

} // verus!
