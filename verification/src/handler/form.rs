//! The checks that every administrative form passes before it acts.
use vstd::prelude::*;
use crate::validation::{ValidationErrors, issues_text};

verus! {

/// Why a form was turned away.
pub enum FormRejection {
    /// The captcha was not solved.
    CaptchaFailed,
    /// The form is invalid; the message says why.
    Invalid(String),
}

/// The checks of an administrative form, in order: the captcha must be solved,
/// the fields must be valid (the reply then reports every failed check), and the
/// password must be the administrator's.
pub fn check_admin_form(
    captcha_ok: bool,
    validation: Result<(), ValidationErrors>,
    password: &str,
    admin_password: &str,
) -> (r: Option<FormRejection>)
    ensures
        !captcha_ok ==> r == Some(FormRejection::CaptchaFailed),
        captcha_ok && validation is Err ==> (r matches Some(FormRejection::Invalid(m)) && m@
            == issues_text(validation->Err_0@)),
        captcha_ok && validation is Ok && password@ != admin_password@ ==> (r matches Some(
            FormRejection::Invalid(m),
        ) && m@ == "password is incorrect"@),
        captcha_ok && validation is Ok && password@ == admin_password@ ==> r is None,
{
    if !captcha_ok {
        return Some(FormRejection::CaptchaFailed);
    }
    match validation {
        Err(e) => Some(FormRejection::Invalid(e.to_display_string())),
        Ok(()) => {
            let given = String::from_str(password);
            let expected = String::from_str(admin_password);
            if given != expected {
                Some(FormRejection::Invalid(String::from_str("password is incorrect")))
            } else {
                None
            }
        },
    }
}

/// A bearer token authorizes a request when it is the shared secret.
pub fn is_authorized(token: Option<&str>, secret: &str) -> (b: bool)
    ensures
        b == (token is Some && token->0@ == secret@),
{
    match token {
        Some(t) => {
            let given = String::from_str(t);
            let expected = String::from_str(secret);
            given == expected
        },
        None => false,
    }
}

} // verus!
