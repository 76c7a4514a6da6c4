//! The steps of the administrator's form handlers. Each handler checks the
//! captcha, the form and the password, then does its outside work one step at a
//! time; given what the last step gave, the functions here say what comes next
//! and which reply ends the request.
use vstd::prelude::*;
use crate::error::AppError;
use crate::handler::form::FormRejection;
use crate::handler::posts::{WriteFailure as PostWriteFailure, post_write_failure};
use crate::handler::short::{WriteFailure as ShortWriteFailure, add_failure, delete_failure};

verus! {

/// The replies of a form handler.
pub enum Reply {
    CaptchaFailed,
    Invalid(String),
    Failed,
    Okay,
}

/// Work started after the reply, whose outcome does not change it.
pub enum Background {
    Nothing,
    /// Record the page's new date and drop the cached entries the new post makes stale.
    RefreshPages,
    /// Drop the whole cache.
    FlushCache,
}

/// What the last step gave.
pub enum Event {
    /// The captcha, the form and the password were checked.
    Checked(Option<FormRejection>),
    /// The cache connection was opened, or failed.
    Connected(Result<(), AppError>),
    /// The write to the database or the bucket was made, or failed.
    Written(Result<(), AppError>),
    /// The number of posts could be read, or not.
    Counted(bool),
    /// The cache was flushed, or not.
    Flushed(bool),
}

/// What to do next.
pub enum Action {
    Connect,
    Write,
    CountPosts,
    Flush,
    /// Answer with the reply and start the background work.
    Answer(Reply, Background),
    /// Answer with the error page of this failure.
    ErrorPage(AppError),
}

/// A rejected form is answered at once.
pub open spec fn rejected(rejection: FormRejection) -> Action {
    match rejection {
        FormRejection::CaptchaFailed => Action::Answer(Reply::CaptchaFailed, Background::Nothing),
        FormRejection::Invalid(m) => Action::Answer(Reply::Invalid(m), Background::Nothing),
    }
}

pub open spec fn answer(reply: Reply) -> Action {
    Action::Answer(reply, Background::Nothing)
}

fn reject(rejection: FormRejection) -> (a: Action)
    ensures
        a == rejected(rejection),
{
    match rejection {
        FormRejection::CaptchaFailed => Action::Answer(Reply::CaptchaFailed, Background::Nothing),
        FormRejection::Invalid(m) => Action::Answer(Reply::Invalid(m), Background::Nothing),
    }
}

fn post_failure_reply(e: &AppError) -> (a: Action)
    ensures
        (*e is UniqueViolation) ==> (a matches Action::Answer(Reply::Invalid(m), Background::Nothing)
            && m@ == "post with this slug already exists"@),
        !(*e is UniqueViolation) ==> a == answer(Reply::Failed),
{
    match post_write_failure(e) {
        PostWriteFailure::Invalid(m) => Action::Answer(Reply::Invalid(m), Background::Nothing),
        PostWriteFailure::Failed => Action::Answer(Reply::Failed, Background::Nothing),
    }
}

/// Adding a post: the checks, the cache connection (a failure is answered with
/// the failure reply), the write (a taken slug is the user's to fix), then the
/// number of posts. The post is reported added either way; with the number the
/// cached pages are refreshed, without it the whole cache is dropped.
pub fn add_post_step(event: Event) -> (a: Action)
    ensures
        event matches Event::Checked(Some(rej)) ==> a == rejected(rej),
        event == Event::Checked(Some(FormRejection::CaptchaFailed)) ==> a == Action::Answer(
            Reply::CaptchaFailed,
            Background::Nothing,
        ),
        event matches Event::Checked(Some(FormRejection::Invalid(m))) ==> a == Action::Answer(
            Reply::Invalid(m),
            Background::Nothing,
        ),
        event matches Event::Checked(None) ==> a is Connect,
        event matches Event::Connected(Ok(())) ==> a is Write,
        event matches Event::Connected(Err(_)) ==> a == answer(Reply::Failed),
        event matches Event::Written(Ok(())) ==> a is CountPosts,
        event matches Event::Written(Err(e)) ==> ((e is UniqueViolation) ==> (a matches Action::Answer(
            Reply::Invalid(m),
            Background::Nothing,
        ) && m@ == "post with this slug already exists"@)) && (!(e is UniqueViolation) ==> a
            == answer(Reply::Failed)),
        event == Event::Counted(true) ==> a == Action::Answer(Reply::Okay, Background::RefreshPages),
        event == Event::Counted(false) ==> a == Action::Answer(Reply::Okay, Background::FlushCache),
        event is Flushed ==> a == answer(Reply::Failed),
{
    match event {
        Event::Checked(Some(rej)) => reject(rej),
        Event::Checked(None) => Action::Connect,
        Event::Connected(Ok(())) => Action::Write,
        Event::Connected(Err(_)) => Action::Answer(Reply::Failed, Background::Nothing),
        Event::Written(Ok(())) => Action::CountPosts,
        Event::Written(Err(e)) => post_failure_reply(&e),
        Event::Counted(true) => Action::Answer(Reply::Okay, Background::RefreshPages),
        Event::Counted(false) => Action::Answer(Reply::Okay, Background::FlushCache),
        Event::Flushed(_) => Action::Answer(Reply::Failed, Background::Nothing),
    }
}

/// Editing (`editing`) or deleting a post: the checks, the cache connection (a
/// failure is answered with its error page), the write (when editing, a taken
/// slug is the user's to fix), then the flush of the cache, which must succeed.
pub fn rewrite_post_step(editing: bool, event: Event) -> (a: Action)
    ensures
        event matches Event::Checked(Some(rej)) ==> a == rejected(rej),
        event == Event::Checked(Some(FormRejection::CaptchaFailed)) ==> a == Action::Answer(
            Reply::CaptchaFailed,
            Background::Nothing,
        ),
        event matches Event::Checked(Some(FormRejection::Invalid(m))) ==> a == Action::Answer(
            Reply::Invalid(m),
            Background::Nothing,
        ),
        event matches Event::Checked(None) ==> a is Connect,
        event matches Event::Connected(Ok(())) ==> a is Write,
        event matches Event::Connected(Err(e)) ==> a == Action::ErrorPage(e),
        event matches Event::Written(Ok(())) ==> a is Flush,
        event matches Event::Written(Err(e)) ==> (editing && e is UniqueViolation ==> (a matches Action::Answer(
            Reply::Invalid(m),
            Background::Nothing,
        ) && m@ == "post with this slug already exists"@)) && (!(editing && e is UniqueViolation)
            ==> a == answer(Reply::Failed)),
        event == Event::Flushed(true) ==> a == answer(Reply::Okay),
        event == Event::Flushed(false) ==> a == answer(Reply::Failed),
        event is Counted ==> a == answer(Reply::Failed),
{
    match event {
        Event::Checked(Some(rej)) => reject(rej),
        Event::Checked(None) => Action::Connect,
        Event::Connected(Ok(())) => Action::Write,
        Event::Connected(Err(e)) => Action::ErrorPage(e),
        Event::Written(Ok(())) => Action::Flush,
        Event::Written(Err(e)) => {
            if editing {
                post_failure_reply(&e)
            } else {
                Action::Answer(Reply::Failed, Background::Nothing)
            }
        },
        Event::Flushed(true) => Action::Answer(Reply::Okay, Background::Nothing),
        Event::Flushed(false) => Action::Answer(Reply::Failed, Background::Nothing),
        Event::Counted(_) => Action::Answer(Reply::Failed, Background::Nothing),
    }
}

/// Adding (`adding`) or deleting a short link: the checks, then the write. When
/// adding, a taken key is the user's to fix; when deleting, a missing key is.
pub fn short_link_step(adding: bool, event: Event) -> (a: Action)
    ensures
        event matches Event::Checked(Some(rej)) ==> a == rejected(rej),
        event == Event::Checked(Some(FormRejection::CaptchaFailed)) ==> a == Action::Answer(
            Reply::CaptchaFailed,
            Background::Nothing,
        ),
        event matches Event::Checked(Some(FormRejection::Invalid(m))) ==> a == Action::Answer(
            Reply::Invalid(m),
            Background::Nothing,
        ),
        event matches Event::Checked(None) ==> a is Write,
        event matches Event::Written(Ok(())) ==> a == answer(Reply::Okay),
        event matches Event::Written(Err(e)) ==> (adding && e is UniqueViolation ==> (a matches Action::Answer(
            Reply::Invalid(m),
            Background::Nothing,
        ) && m@ == "key is already in use"@)) && (!adding && e is NotFound ==> (a matches Action::Answer(
            Reply::Invalid(m),
            Background::Nothing,
        ) && m@ == "key is not found"@)) && (!(adding && e is UniqueViolation) && !(!adding
            && e is NotFound) ==> a == answer(Reply::Failed)),
        event is Connected || event is Counted || event is Flushed ==> a == answer(Reply::Failed),
{
    match event {
        Event::Checked(Some(rej)) => reject(rej),
        Event::Checked(None) => Action::Write,
        Event::Written(Ok(())) => Action::Answer(Reply::Okay, Background::Nothing),
        Event::Written(Err(e)) => {
            let failure = if adding {
                add_failure(&e)
            } else {
                delete_failure(&e)
            };
            match failure {
                ShortWriteFailure::Invalid(m) => Action::Answer(Reply::Invalid(m), Background::Nothing),
                ShortWriteFailure::Failed => Action::Answer(Reply::Failed, Background::Nothing),
            }
        },
        _ => Action::Answer(Reply::Failed, Background::Nothing),
    }
}

/// Deleting an object of the bucket: the checks, then the deletion, whose
/// failure is answered with its error page.
pub fn bucket_delete_step(event: Event) -> (a: Action)
    ensures
        event matches Event::Checked(Some(rej)) ==> a == rejected(rej),
        event == Event::Checked(Some(FormRejection::CaptchaFailed)) ==> a == Action::Answer(
            Reply::CaptchaFailed,
            Background::Nothing,
        ),
        event matches Event::Checked(Some(FormRejection::Invalid(m))) ==> a == Action::Answer(
            Reply::Invalid(m),
            Background::Nothing,
        ),
        event matches Event::Checked(None) ==> a is Write,
        event matches Event::Written(Ok(())) ==> a == answer(Reply::Okay),
        event matches Event::Written(Err(e)) ==> a == Action::ErrorPage(e),
        event is Connected || event is Counted || event is Flushed ==> a == answer(Reply::Failed),
{
    match event {
        Event::Checked(Some(rej)) => reject(rej),
        Event::Checked(None) => Action::Write,
        Event::Written(Ok(())) => Action::Answer(Reply::Okay, Background::Nothing),
        Event::Written(Err(e)) => Action::ErrorPage(e),
        _ => Action::Answer(Reply::Failed, Background::Nothing),
    }
}

} // verus!
