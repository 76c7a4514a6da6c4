//! The forms that add, edit and delete posts, and the "load more" list.
use vstd::prelude::*;
use crate::error::AppError;

pub mod add;
pub mod delete;
pub mod edit;
pub mod load_more;

verus! {

/// Reply: the action succeeded.
pub struct Okay<'a> {
    pub action: &'a str,
    pub message: &'a str,
}

impl<'a> Okay<'a> {
    pub fn new(action: &'a str, message: &'a str) -> (r: Self)
        ensures
            r.action == action,
            r.message == message,
    {
        Okay { action, message }
    }
}

/// Reply: the form is invalid.
pub struct Invalid<'a> {
    pub form_id: &'a str,
    pub message: &'a str,
}

impl<'a> Invalid<'a> {
    pub fn new(form_id: &'a str, message: &'a str) -> (r: Self)
        ensures
            r.form_id == form_id,
            r.message == message,
    {
        Invalid { form_id, message }
    }
}

/// Reply: the captcha was not solved.
pub struct CaptchaFailed<'a> {
    pub form_id: &'a str,
}

impl<'a> CaptchaFailed<'a> {
    pub fn new(form_id: &'a str) -> (r: Self)
        ensures
            r.form_id == form_id,
    {
        CaptchaFailed { form_id }
    }
}

/// Reply: the action failed.
pub struct Failed {}

/// How a failed write of a post is answered.
pub enum WriteFailure {
    /// Show the invalid-form reply with this message.
    Invalid(String),
    /// Show the failure reply.
    Failed,
}

/// A slug that is taken is the user's to fix; any other failure is ours.
pub fn post_write_failure(e: &AppError) -> (r: WriteFailure)
    ensures
        (*e is UniqueViolation) ==> (r matches WriteFailure::Invalid(m) && m@
            == "post with this slug already exists"@),
        !(*e is UniqueViolation) ==> r is Failed,
{
    match e {
        AppError::UniqueViolation { .. } => WriteFailure::Invalid(
            String::from_str("post with this slug already exists"),
        ),
        _ => WriteFailure::Failed,
    }
}

} // verus!
