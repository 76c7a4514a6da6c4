//! The contact form: the replies it shows and the e-mail it sends.
use vstd::prelude::*;
use crate::model::contact::ContactUs;
use crate::validation::{is_email, leading_message};

verus! {

/// Reply: the message was sent.
pub struct Success {}

/// Reply: the message could not be sent.
pub struct Failed {}

/// Reply: the form is invalid.
pub struct Invalid<'a> {
    pub message: &'a str,
}

impl<'a> Invalid<'a> {
    pub fn new(message: &'a str) -> (r: Self)
        ensures
            r.message == message,
    {
        Invalid { message }
    }
}

/// Reply: the captcha was not solved.
pub struct CaptchaFailed {}

/// The body of the e-mail that carries a contact message.
pub struct SendEmail<'a> {
    pub name: &'a str,
    pub email: &'a str,
    pub message: &'a str,
    pub date: &'a str,
}

impl<'a> SendEmail<'a> {
    pub fn new(name: &'a str, email: &'a str, message: &'a str, date: &'a str) -> (r: Self)
        ensures
            r.name == name,
            r.email == email,
            r.message == message,
            r.date == date,
    {
        SendEmail { name, email, message, date }
    }
}

/// What the contact form does with a submission before any mail is sent.
pub enum ContactStep {
    /// Show the captcha reply.
    CaptchaFailed,
    /// Show the invalid-form reply with this message.
    Invalid(String),
    /// Send the e-mail.
    Send,
}

/// An unsolved captcha is answered first; an invalid form then shows the message
/// of its first failed check (or `"invalid value"` when that check carries none);
/// a valid form is sent.
pub fn contact_step(captcha_ok: bool, payload: &ContactUs) -> (r: ContactStep)
    ensures
        !captcha_ok ==> r is CaptchaFailed,
        captcha_ok && payload.issues().len() > 0 ==> (r matches ContactStep::Invalid(m) && m@
            == leading_message(payload.issues())),
        captcha_ok && payload.issues().len() == 0 ==> r is Send,
        captcha_ok && payload.issues().len() > 0 && payload.issues()[0].2 is Some ==> (r matches ContactStep::Invalid(m)
            && m@ == payload.issues()[0].2->0),
        captcha_ok && payload.issues().len() > 0 && payload.issues()[0].2 is None ==> (r matches ContactStep::Invalid(m)
            && m@ == "invalid value"@),
        captcha_ok ==> ((r is Send) <==> (is_email(payload.email@) && 5 <= payload.name@.len()
            <= 100 && 10 <= payload.message@.len() <= 1000)),
        captcha_ok && !is_email(payload.email@) ==> (r matches ContactStep::Invalid(m) && m@
            == "provide a valid email"@),
        captcha_ok && is_email(payload.email@) && !(5 <= payload.name@.len() <= 100) ==> (r matches ContactStep::Invalid(m)
            && m@ == "name must be between 5 and 100 characters"@),
        captcha_ok && is_email(payload.email@) && 5 <= payload.name@.len() <= 100 && !(10
            <= payload.message@.len() <= 1000) ==> (r matches ContactStep::Invalid(m) && m@
            == "message must be between 10 and 1000 characters"@),
{
    if !captcha_ok {
        return ContactStep::CaptchaFailed;
    }
    match payload.validate() {
        Err(e) => ContactStep::Invalid(e.leading_message()),
        Ok(()) => ContactStep::Send,
    }
}

/// The sender of contact e-mails.
pub fn contact_sender() -> (s: String)
    ensures
        s@ == "vinuka.dev <contact-form@vinuka.dev>"@,
{
    String::from_str("vinuka.dev <contact-form@vinuka.dev>")
}

/// The subject of a contact e-mail: `[{name}] Contact form submission`.
pub fn contact_subject(name: &str) -> (s: String)
    ensures
        s@ == "["@ + name@ + "] Contact form submission"@,
{
    let mut s = String::from_str("[");
    s.append(name);
    s.append("] Contact form submission");
    s
}

/// The format of the date written into a contact e-mail.
pub fn contact_date_format() -> (s: &'static str)
    ensures
        s@ == "%Y-%m-%d %H:%M:%S"@,
{
    "%Y-%m-%d %H:%M:%S"
}

} // verus!
