//! Adding a short link through the form.
use vstd::prelude::*;

verus! {

pub fn form_id() -> (s: &'static str)
    ensures
        s@ == "shorten-link-form"@,
{
    "shorten-link-form"
}

/// The reply after a link was shortened.
pub fn shortened() -> (r: (&'static str, &'static str))
    ensures
        r.0@ == "Shortned"@,
        r.1@
            == "Your link has been successfully shortened. You can now use it to access your content easily."@,
{
    (
        "Shortned",
        "Your link has been successfully shortened. You can now use it to access your content easily.",
    )
}

} // verus!
