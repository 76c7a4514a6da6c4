//! Handing out a presigned upload URL for the storage bucket.
use vstd::prelude::*;
use crate::error::AppError;
use crate::validation::ValidationErrors;

verus! {

/// The checks, in order: a caller without the shared secret must have solved the
/// captcha (whose answer is then `captcha_ok`), the fields must be valid, and the
/// password must be the administrator's.
pub fn check_request(
    authorized: bool,
    captcha_ok: bool,
    validation: Result<(), ValidationErrors>,
    password: &str,
    admin_password: &str,
) -> (r: Result<(), AppError>)
    ensures
        !authorized && !captcha_ok ==> (r matches Err(AppError::CaptchaFailed { user_message, internal_message, source })
            && user_message@ == "captcha failed"@ && internal_message is None && source is None),
        (authorized || captcha_ok) && validation is Err ==> r == Err::<(), AppError>(
            AppError::Validation(validation->Err_0),
        ),
        (authorized || captcha_ok) && validation is Ok && password@ != admin_password@ ==> (r matches Err(AppError::Unauthorized { user_message, internal_message, source })
            && user_message@ == "password is incorrect"@ && internal_message is None
            && source is None),
        (authorized || captcha_ok) && validation is Ok && password@ == admin_password@ ==> r is Ok,
{
    if !authorized && !captcha_ok {
        return Err(AppError::captcha("captcha failed"));
    }
    match validation {
        Err(e) => Err(AppError::Validation(e)),
        Ok(()) => {
            let given = String::from_str(password);
            let expected = String::from_str(admin_password);
            if given != expected {
                Err(AppError::unauthorized("password is incorrect"))
            } else {
                Ok(())
            }
        },
    }
}

/// How long a presigned URL stays valid: one hour, in seconds.
pub fn expiry_secs() -> (s: u64)
    ensures
        s == 3600,
{
    60 * 60
}

} // verus!
