//! Deleting a post.
use vstd::prelude::*;

verus! {

pub fn form_id() -> (s: &'static str)
    ensures
        s@ == "del-post-form"@,
{
    "del-post-form"
}

/// The reply after a post was deleted.
pub fn deleted() -> (r: (&'static str, &'static str))
    ensures
        r.0@ == "Deleted"@,
        r.1@ == "Your post has been successfully deleted from the database."@,
{
    ("Deleted", "Your post has been successfully deleted from the database.")
}

} // verus!
