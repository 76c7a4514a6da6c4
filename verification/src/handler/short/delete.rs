//! Deleting a short link.
use vstd::prelude::*;

verus! {

pub fn form_id() -> (s: &'static str)
    ensures
        s@ == "del-link-form"@,
{
    "del-link-form"
}

/// The reply after a link was deleted.
pub fn deleted() -> (r: (&'static str, &'static str))
    ensures
        r.0@ == "Deleted"@,
        r.1@ == "Your link has been successfully deleted from the database."@,
{
    ("Deleted", "Your link has been successfully deleted from the database.")
}

} // verus!
