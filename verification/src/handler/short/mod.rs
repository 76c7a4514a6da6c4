//! The forms that add, check and delete short links.
use vstd::prelude::*;
use crate::error::AppError;

pub mod add;
pub mod add_api;
pub mod delete;
pub mod verify;

verus! {

/// Reply: the captcha was not solved.
pub struct CaptchaFailed<'a> {
    pub form_id: &'a str,
}

impl<'a> CaptchaFailed<'a> {
    pub fn new(form_id: &'a str) -> (r: Self)
        ensures
            r.form_id == form_id,
    {
        CaptchaFailed { form_id }
    }
}

/// Reply: the form is invalid.
pub struct Invalid<'a> {
    pub form_id: &'a str,
    pub message: &'a str,
}

impl<'a> Invalid<'a> {
    pub fn new(form_id: &'a str, message: &'a str) -> (r: Self)
        ensures
            r.form_id == form_id,
            r.message == message,
    {
        Invalid { form_id, message }
    }
}

/// Reply: the action failed.
pub struct Failed {}

/// Reply: the action succeeded.
pub struct Okay<'a> {
    pub action: &'a str,
    pub message: &'a str,
}

impl<'a> Okay<'a> {
    pub fn new(action: &'a str, message: &'a str) -> (r: Self)
        ensures
            r.action == action,
            r.message == message,
    {
        Okay { action, message }
    }
}

/// How a failed database write of a short link is answered.
pub enum WriteFailure {
    /// Show the invalid-form reply with this message.
    Invalid(String),
    /// Show the failure reply.
    Failed,
}

/// A key that is taken is the user's to fix; any other failure is ours.
pub fn add_failure(e: &AppError) -> (r: WriteFailure)
    ensures
        (*e is UniqueViolation) ==> (r matches WriteFailure::Invalid(m) && m@
            == "key is already in use"@),
        !(*e is UniqueViolation) ==> r is Failed,
{
    match e {
        AppError::UniqueViolation { .. } => WriteFailure::Invalid(
            String::from_str("key is already in use"),
        ),
        _ => WriteFailure::Failed,
    }
}

/// A key that does not exist is the user's to fix; any other failure is ours.
pub fn delete_failure(e: &AppError) -> (r: WriteFailure)
    ensures
        (*e is NotFound) ==> (r matches WriteFailure::Invalid(m) && m@ == "key is not found"@),
        !(*e is NotFound) ==> r is Failed,
{
    match e {
        AppError::NotFound { .. } => WriteFailure::Invalid(String::from_str("key is not found")),
        _ => WriteFailure::Failed,
    }
}

} // verus!
