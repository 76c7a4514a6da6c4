//! Signing up to the newsletter.
use vstd::prelude::*;
use crate::validation::is_email;
use crate::model::newsletter::SignUp;

verus! {

/// What the sign-up form does with a submission.
pub enum NewsletterStep {
    /// Show the captcha reply.
    CaptchaFailed,
    /// Show the invalid-address reply.
    Invalid,
    /// Add the address to the audience.
    Subscribe,
}

/// An unsolved captcha is answered first, then an invalid address; otherwise the
/// address is subscribed.
pub fn newsletter_step(captcha_ok: bool, payload: &SignUp) -> (r: NewsletterStep)
    ensures
        !captcha_ok ==> r is CaptchaFailed,
        captcha_ok && payload.issues().len() > 0 ==> r is Invalid,
        captcha_ok && payload.issues().len() == 0 ==> r is Subscribe,
        captcha_ok ==> ((r is Subscribe) <==> is_email(payload.email@)),
{
    if !captcha_ok {
        return NewsletterStep::CaptchaFailed;
    }
    match payload.validate() {
        Err(_) => NewsletterStep::Invalid,
        Ok(()) => NewsletterStep::Subscribe,
    }
}

} // verus!
