//! Uploading to and deleting from the storage bucket and the image CDN.
use vstd::prelude::*;

pub mod cdn;
pub mod delete;
pub mod presigned;

verus! {

/// Reply: the captcha was not solved.
pub struct CaptchaFailed<'a> {
    pub form_id: &'a str,
}

impl<'a> CaptchaFailed<'a> {
    pub fn new(form_id: &'a str) -> (r: Self)
        ensures
            r.form_id == form_id,
    {
        CaptchaFailed { form_id }
    }
}

/// Reply: the action failed.
pub struct Failed {}

/// Reply: the form is invalid.
pub struct Invalid<'a> {
    pub form_id: &'a str,
    pub message: &'a str,
}

impl<'a> Invalid<'a> {
    pub fn new(form_id: &'a str, message: &'a str) -> (r: Self)
        ensures
            r.form_id == form_id,
            r.message == message,
    {
        Invalid { form_id, message }
    }
}

/// Reply: the action succeeded.
pub struct Okay<'a> {
    pub action: &'a str,
    pub message: &'a str,
}

impl<'a> Okay<'a> {
    pub fn new(action: &'a str, message: &'a str) -> (r: Self)
        ensures
            r.action == action,
            r.message == message,
    {
        Okay { action, message }
    }
}

} // verus!
