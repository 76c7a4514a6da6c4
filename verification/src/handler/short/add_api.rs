//! Adding a short link through the API.
use vstd::prelude::*;
use crate::error::AppError;
use crate::validation::ValidationErrors;

verus! {

/// The checks of the API, in order: the bearer token must be the shared secret,
/// then the fields must be valid.
pub fn check_request(authorized: bool, validation: Result<(), ValidationErrors>) -> (r: Result<
    (),
    AppError,
>)
    ensures
        !authorized ==> (r matches Err(AppError::Unauthorized { user_message, internal_message, source })
            && user_message@ == "password is incorrect"@ && internal_message is None
            && source is None),
        authorized && validation is Err ==> r == Err::<(), AppError>(
            AppError::Validation(validation->Err_0),
        ),
        authorized && validation is Ok ==> r is Ok,
{
    if !authorized {
        return Err(AppError::unauthorized("password is incorrect"));
    }
    match validation {
        Err(e) => Err(AppError::Validation(e)),
        Ok(()) => Ok(()),
    }
}

/// The short link of a key: `{domain}/{key}`.
pub fn short_url(domain: &str, key: &str) -> (s: String)
    ensures
        s@ == domain@ + "/"@ + key@,
{
    let mut s = String::from_str(domain);
    s.append("/");
    s.append(key);
    s
}

/// The JSON reply after a link was added: its status and message.
pub fn added() -> (r: (&'static str, &'static str))
    ensures
        r.0@ == "success"@,
        r.1@ == "Short URL added successfully"@,
{
    ("success", "Short URL added successfully")
}

} // verus!
