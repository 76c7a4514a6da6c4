//! Deleting an object of the storage bucket.
use vstd::prelude::*;

verus! {

pub fn form_id() -> (s: &'static str)
    ensures
        s@ == "delete-form"@,
{
    "delete-form"
}

/// The reply after an object was deleted.
pub fn deleted() -> (r: (&'static str, &'static str))
    ensures
        r.0@ == "Deleted"@,
        r.1@ == "The resource has been successfully deleted from the storage bucket."@,
{
    ("Deleted", "The resource has been successfully deleted from the storage bucket.")
}

} // verus!
