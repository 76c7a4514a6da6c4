//! Checking whether a key is free.
use vstd::prelude::*;
use crate::validation::{ValidationErrors, issues_text};

verus! {

/// The reply about a key: the key, a message and its kind (`info` or `error`).
pub struct ValidateKey<'a> {
    pub value: &'a str,
    pub message: &'a str,
    pub message_type: &'a str,
}

impl<'a> ValidateKey<'a> {
    pub fn okay(key: &'a str) -> (r: Self)
        ensures
            r.value == key,
            r.message@ == "Key used is valid"@,
            r.message_type@ == "info"@,
    {
        ValidateKey { value: key, message: "Key used is valid", message_type: "info" }
    }

    pub fn invalid(key: &'a str, message: &'a str) -> (r: Self)
        ensures
            r.value == key,
            r.message == message,
            r.message_type@ == "error"@,
    {
        ValidateKey { value: key, message, message_type: "error" }
    }
}

/// What is said about a key.
pub enum KeyVerdict {
    Okay,
    Invalid(String),
}

/// An invalid key reports its failed checks; a lookup that failed, or found the
/// key taken, says so; a valid free key is okay. `available` is the lookup's
/// answer (`Some(true)` when no link uses the key), `None` when it failed.
pub fn key_verdict(validation: Result<(), ValidationErrors>, available: Option<bool>) -> (r:
    KeyVerdict)
    ensures
        validation is Err ==> (r matches KeyVerdict::Invalid(m) && m@ == issues_text(
            validation->Err_0@,
        )),
        validation is Ok && available is None ==> (r matches KeyVerdict::Invalid(m) && m@
            == "Failed to check key validity"@),
        validation is Ok && available == Some(false) ==> (r matches KeyVerdict::Invalid(m) && m@
            == "key is already in use"@),
        validation is Ok && available == Some(true) ==> r is Okay,
{
    match validation {
        Err(e) => KeyVerdict::Invalid(e.to_display_string()),
        Ok(()) => match available {
            None => KeyVerdict::Invalid(String::from_str("Failed to check key validity")),
            Some(false) => KeyVerdict::Invalid(String::from_str("key is already in use")),
            Some(true) => KeyVerdict::Okay,
        },
    }
}

} // verus!
