//! The application's error: its kinds, what each kind tells a user, which
//! status it answers with, and how it is logged.
use vstd::prelude::*;
use crate::validation::{ValidationErrors, errors_debug, first_message, issues_text, opt_view};

verus! {

/// Three renderings of an underlying error: its message (`{}`), its message with
/// the chain of causes (`{:#}`), and its debug form as logs show it (`{:#?}`).
pub struct ErrorText {
    pub message: String,
    pub detail: String,
    pub debug: String,
}

impl ErrorText {
    pub fn new(message: String, detail: String, debug: String) -> (t: Self)
        ensures
            t.message == message,
            t.detail == detail,
            t.debug == debug,
    {
        ErrorText { message, detail, debug }
    }
}

pub enum AppError {
    NotFound { user_message: String, internal_message: Option<String>, source: Option<ErrorText> },
    BadRequest { user_message: String, internal_message: Option<String>, source: Option<ErrorText> },
    UniqueViolation {
        user_message: String,
        internal_message: Option<String>,
        source: Option<ErrorText>,
    },
    Unauthorized {
        user_message: String,
        internal_message: Option<String>,
        source: Option<ErrorText>,
    },
    CaptchaFailed {
        user_message: String,
        internal_message: Option<String>,
        source: Option<ErrorText>,
    },
    Validation(ValidationErrors),
    Other(ErrorText),
}

/// The tag that names each kind in logs and JSON replies.
pub open spec fn tag_of(e: AppError) -> Seq<char> {
    match e {
        AppError::BadRequest { .. } => "bad_request"@,
        AppError::NotFound { .. } => "not_found"@,
        AppError::UniqueViolation { .. } => "conflict"@,
        AppError::Unauthorized { .. } => "unauthorized"@,
        AppError::CaptchaFailed { .. } => "captcha_failed"@,
        AppError::Validation(_) => "validation"@,
        AppError::Other(_) => "other"@,
    }
}

/// The HTTP status each kind answers with.
pub open spec fn status_of(e: AppError) -> u16 {
    match e {
        AppError::BadRequest { .. } => 400,
        AppError::NotFound { .. } => 404,
        AppError::UniqueViolation { .. } => 400,
        AppError::Unauthorized { .. } => 401,
        AppError::CaptchaFailed { .. } => 400,
        AppError::Validation(_) => 400,
        AppError::Other(_) => 500,
    }
}

/// What a user is told.
pub open spec fn user_message_of(e: AppError) -> Seq<char> {
    match e {
        AppError::BadRequest { user_message, .. } => user_message@,
        AppError::NotFound { user_message, .. } => user_message@,
        AppError::UniqueViolation { user_message, .. } => user_message@,
        AppError::Unauthorized { user_message, .. } => user_message@,
        AppError::CaptchaFailed { user_message, .. } => user_message@,
        AppError::Validation(errs) => first_message(errs@),
        AppError::Other(_) => "something went wrong"@,
    }
}

/// What the error displays as.
pub open spec fn display_of(e: AppError) -> Seq<char> {
    match e {
        AppError::BadRequest { user_message, .. } => user_message@,
        AppError::NotFound { user_message, .. } => user_message@,
        AppError::UniqueViolation { user_message, .. } => user_message@,
        AppError::Unauthorized { user_message, .. } => user_message@,
        AppError::CaptchaFailed { user_message, .. } => user_message@,
        AppError::Validation(errs) => issues_text(errs@),
        AppError::Other(t) => t.message@,
    }
}

/// The internal note that logs prefer over the user message.
pub open spec fn internal_message_of(e: AppError) -> Option<Seq<char>> {
    match e {
        AppError::Other(t) => Some(t.detail@),
        AppError::Validation(errs) => Some(errors_debug(errs@)),
        AppError::BadRequest { internal_message, .. } => opt_view(internal_message),
        AppError::NotFound { internal_message, .. } => opt_view(internal_message),
        AppError::UniqueViolation { internal_message, .. } => opt_view(internal_message),
        AppError::Unauthorized { internal_message, .. } => opt_view(internal_message),
        AppError::CaptchaFailed { internal_message, .. } => opt_view(internal_message),
    }
}

/// The underlying error, when there is one.
pub open spec fn source_of(e: AppError) -> Option<ErrorText> {
    match e {
        AppError::BadRequest { source, .. } => source,
        AppError::NotFound { source, .. } => source,
        AppError::UniqueViolation { source, .. } => source,
        AppError::Unauthorized { source, .. } => source,
        AppError::CaptchaFailed { source, .. } => source,
        AppError::Other(t) => Some(t),
        AppError::Validation(_) => None,
    }
}

/// The level a log line is written at.
pub enum LogLevel {
    Error,
    Warn,
}

/// A log line and the level to write it at.
pub struct LogRecord {
    pub level: LogLevel,
    pub line: String,
}

/// The log line: tag, the internal note or else the user message, and the
/// source's debug form when there is a source.
pub open spec fn log_line_of(e: AppError) -> Seq<char> {
    let msg = match internal_message_of(e) {
        Some(m) => m,
        None => user_message_of(e),
    };
    let head = "AppError ["@ + tag_of(e) + "]: "@ + msg;
    match source_of(e) {
        Some(s) => head + " | source: "@ + s.debug@,
        None => head,
    }
}

fn clone_opt(o: &Option<String>) -> (r: Option<String>)
    ensures
        r == *o,
{
    match o {
        Some(s) => Some(s.clone()),
        None => None,
    }
}

impl AppError {
    pub fn bad_request(msg: &str) -> (e: Self)
        ensures
            e matches AppError::BadRequest { user_message, internal_message, source }
                && user_message@ == msg@ && internal_message is None && source is None,
    {
        AppError::BadRequest { user_message: String::from_str(msg), internal_message: None, source: None }
    }

    pub fn bad_request_with_source(
        msg: &str,
        internal_message: Option<String>,
        source: ErrorText,
    ) -> (e: Self)
        ensures
            e == (AppError::BadRequest {
                user_message: e->BadRequest_user_message,
                internal_message,
                source: Some(source),
            }),
            e->BadRequest_user_message@ == msg@,
    {
        AppError::BadRequest {
            user_message: String::from_str(msg),
            internal_message,
            source: Some(source),
        }
    }

    pub fn not_found(msg: &str) -> (e: Self)
        ensures
            e matches AppError::NotFound { user_message, internal_message, source }
                && user_message@ == msg@ && internal_message is None && source is None,
    {
        AppError::NotFound { user_message: String::from_str(msg), internal_message: None, source: None }
    }

    pub fn not_found_with_source(
        msg: &str,
        internal_message: Option<String>,
        source: ErrorText,
    ) -> (e: Self)
        ensures
            e == (AppError::NotFound {
                user_message: e->NotFound_user_message,
                internal_message,
                source: Some(source),
            }),
            e->NotFound_user_message@ == msg@,
    {
        AppError::NotFound {
            user_message: String::from_str(msg),
            internal_message,
            source: Some(source),
        }
    }

    pub fn unauthorized(msg: &str) -> (e: Self)
        ensures
            e matches AppError::Unauthorized { user_message, internal_message, source }
                && user_message@ == msg@ && internal_message is None && source is None,
    {
        AppError::Unauthorized {
            user_message: String::from_str(msg),
            internal_message: None,
            source: None,
        }
    }

    pub fn unauthorized_with_source(
        msg: &str,
        internal_message: Option<String>,
        source: ErrorText,
    ) -> (e: Self)
        ensures
            e == (AppError::Unauthorized {
                user_message: e->Unauthorized_user_message,
                internal_message,
                source: Some(source),
            }),
            e->Unauthorized_user_message@ == msg@,
    {
        AppError::Unauthorized {
            user_message: String::from_str(msg),
            internal_message,
            source: Some(source),
        }
    }

    pub fn conflict(msg: &str) -> (e: Self)
        ensures
            e matches AppError::UniqueViolation { user_message, internal_message, source }
                && user_message@ == msg@ && internal_message is None && source is None,
    {
        AppError::UniqueViolation {
            user_message: String::from_str(msg),
            internal_message: None,
            source: None,
        }
    }

    pub fn conflict_with_source(
        msg: &str,
        internal_message: Option<String>,
        source: ErrorText,
    ) -> (e: Self)
        ensures
            e == (AppError::UniqueViolation {
                user_message: e->UniqueViolation_user_message,
                internal_message,
                source: Some(source),
            }),
            e->UniqueViolation_user_message@ == msg@,
    {
        AppError::UniqueViolation {
            user_message: String::from_str(msg),
            internal_message,
            source: Some(source),
        }
    }

    pub fn captcha(msg: &str) -> (e: Self)
        ensures
            e matches AppError::CaptchaFailed { user_message, internal_message, source }
                && user_message@ == msg@ && internal_message is None && source is None,
    {
        AppError::CaptchaFailed {
            user_message: String::from_str(msg),
            internal_message: None,
            source: None,
        }
    }

    pub fn captcha_with_source(
        msg: &str,
        internal_message: Option<String>,
        source: ErrorText,
    ) -> (e: Self)
        ensures
            e == (AppError::CaptchaFailed {
                user_message: e->CaptchaFailed_user_message,
                internal_message,
                source: Some(source),
            }),
            e->CaptchaFailed_user_message@ == msg@,
    {
        AppError::CaptchaFailed {
            user_message: String::from_str(msg),
            internal_message,
            source: Some(source),
        }
    }

    /// Wraps any other error.
    pub fn from_generic_error(e: ErrorText) -> (r: Self)
        ensures
            r == AppError::Other(e),
    {
        AppError::Other(e)
    }

    /// The underlying error, when there is one.
    pub fn source_error(&self) -> (r: Option<&ErrorText>)
        ensures
            match r {
                Some(t) => source_of(*self) == Some(*t),
                None => source_of(*self) is None,
            },
            *self matches AppError::Other(t) ==> r == Some(&t),
            *self is Validation ==> r is None,
            *self matches AppError::BadRequest { source, .. } ==> (match source {
                Some(t) => r == Some(&t),
                None => r is None,
            }),
            *self matches AppError::NotFound { source, .. } ==> (match source {
                Some(t) => r == Some(&t),
                None => r is None,
            }),
            *self matches AppError::UniqueViolation { source, .. } ==> (match source {
                Some(t) => r == Some(&t),
                None => r is None,
            }),
            *self matches AppError::Unauthorized { source, .. } ==> (match source {
                Some(t) => r == Some(&t),
                None => r is None,
            }),
            *self matches AppError::CaptchaFailed { source, .. } ==> (match source {
                Some(t) => r == Some(&t),
                None => r is None,
            }),
    {
        match self {
            AppError::BadRequest { source, .. } => source.as_ref(),
            AppError::NotFound { source, .. } => source.as_ref(),
            AppError::UniqueViolation { source, .. } => source.as_ref(),
            AppError::Unauthorized { source, .. } => source.as_ref(),
            AppError::CaptchaFailed { source, .. } => source.as_ref(),
            AppError::Other(e) => Some(e),
            _ => None,
        }
    }

    /// The internal note: the cause chain of an other error, the debug form of
    /// a validation failure, else what the error was built with.
    pub fn internal_message(&self) -> (r: Option<String>)
        ensures
            opt_view(r) == internal_message_of(*self),
            *self matches AppError::Other(t) ==> r matches Some(m) && m@ == t.detail@,
            *self matches AppError::Validation(errs) ==> r matches Some(m) && m@ == errors_debug(
                errs@,
            ),
            *self matches AppError::BadRequest { internal_message, .. } ==> r == internal_message,
            *self matches AppError::NotFound { internal_message, .. } ==> r == internal_message,
            *self matches AppError::UniqueViolation { internal_message, .. } ==> r
                == internal_message,
            *self matches AppError::Unauthorized { internal_message, .. } ==> r == internal_message,
            *self matches AppError::CaptchaFailed { internal_message, .. } ==> r == internal_message,
    {
        match self {
            AppError::Other(e) => Some(e.detail.clone()),
            AppError::Validation(errs) => Some(errs.debug_string()),
            AppError::BadRequest { internal_message, .. } => clone_opt(internal_message),
            AppError::NotFound { internal_message, .. } => clone_opt(internal_message),
            AppError::UniqueViolation { internal_message, .. } => clone_opt(internal_message),
            AppError::Unauthorized { internal_message, .. } => clone_opt(internal_message),
            AppError::CaptchaFailed { internal_message, .. } => clone_opt(internal_message),
        }
    }

    pub fn get_tag(&self) -> (t: String)
        ensures
            t@ == tag_of(*self),
            t@ == match *self {
                AppError::BadRequest { .. } => "bad_request"@,
                AppError::NotFound { .. } => "not_found"@,
                AppError::UniqueViolation { .. } => "conflict"@,
                AppError::Unauthorized { .. } => "unauthorized"@,
                AppError::CaptchaFailed { .. } => "captcha_failed"@,
                AppError::Validation(_) => "validation"@,
                AppError::Other(_) => "other"@,
            },
    {
        match self {
            AppError::BadRequest { .. } => String::from_str("bad_request"),
            AppError::NotFound { .. } => String::from_str("not_found"),
            AppError::UniqueViolation { .. } => String::from_str("conflict"),
            AppError::Unauthorized { .. } => String::from_str("unauthorized"),
            AppError::CaptchaFailed { .. } => String::from_str("captcha_failed"),
            AppError::Validation(_) => String::from_str("validation"),
            AppError::Other(_) => String::from_str("other"),
        }
    }

    pub fn get_user_message(&self) -> (m: String)
        ensures
            m@ == user_message_of(*self),
            *self is Other ==> m@ == "something went wrong"@,
            *self matches AppError::BadRequest { user_message, .. } ==> m == user_message,
            *self matches AppError::NotFound { user_message, .. } ==> m == user_message,
            *self matches AppError::UniqueViolation { user_message, .. } ==> m == user_message,
            *self matches AppError::Unauthorized { user_message, .. } ==> m == user_message,
            *self matches AppError::CaptchaFailed { user_message, .. } ==> m == user_message,
    {
        match self {
            AppError::BadRequest { user_message, .. } => user_message.clone(),
            AppError::NotFound { user_message, .. } => user_message.clone(),
            AppError::UniqueViolation { user_message, .. } => user_message.clone(),
            AppError::Unauthorized { user_message, .. } => user_message.clone(),
            AppError::CaptchaFailed { user_message, .. } => user_message.clone(),
            AppError::Validation(errs) => errs.first_message(),
            AppError::Other(_) => String::from_str("something went wrong"),
        }
    }

    pub fn get_status_code(&self) -> (s: u16)
        ensures
            s == status_of(*self),
            s == match *self {
                AppError::NotFound { .. } => 404u16,
                AppError::Unauthorized { .. } => 401u16,
                AppError::Other(_) => 500u16,
                _ => 400u16,
            },
    {
        match self {
            AppError::BadRequest { .. } => 400,
            AppError::NotFound { .. } => 404,
            AppError::UniqueViolation { .. } => 400,
            AppError::Unauthorized { .. } => 401,
            AppError::CaptchaFailed { .. } => 400,
            AppError::Validation(_) => 400,
            AppError::Other(_) => 500,
        }
    }

    /// What the error displays as (its user message, the validation report, or
    /// the underlying error's message).
    pub fn to_display_string(&self) -> (s: String)
        ensures
            s@ == display_of(*self),
            *self matches AppError::Other(t) ==> s@ == t.message@,
            *self matches AppError::Validation(errs) ==> s@ == issues_text(errs@),
            *self matches AppError::BadRequest { user_message, .. } ==> s == user_message,
            *self matches AppError::NotFound { user_message, .. } ==> s == user_message,
            *self matches AppError::UniqueViolation { user_message, .. } ==> s == user_message,
            *self matches AppError::Unauthorized { user_message, .. } ==> s == user_message,
            *self matches AppError::CaptchaFailed { user_message, .. } ==> s == user_message,
    {
        match self {
            AppError::BadRequest { user_message, .. } => user_message.clone(),
            AppError::NotFound { user_message, .. } => user_message.clone(),
            AppError::UniqueViolation { user_message, .. } => user_message.clone(),
            AppError::Unauthorized { user_message, .. } => user_message.clone(),
            AppError::CaptchaFailed { user_message, .. } => user_message.clone(),
            AppError::Validation(errs) => errs.to_display_string(),
            AppError::Other(t) => t.message.clone(),
        }
    }

    /// The line to log and its level: errors of kind other are logged as errors,
    /// all others as warnings.
    pub fn log_record(&self) -> (r: LogRecord)
        ensures
            r.line@ == log_line_of(*self),
            (r.level is Error) <==> (*self is Other),
            r.line@ == "AppError ["@ + tag_of(*self) + "]: "@ + (match internal_message_of(*self) {
                Some(m) => m,
                None => user_message_of(*self),
            }) + (match source_of(*self) {
                Some(s) => " | source: "@ + s.debug@,
                None => Seq::empty(),
            }),
    {
        let tag = self.get_tag();
        let msg = match self.internal_message() {
            Some(m) => m,
            None => self.get_user_message(),
        };
        let mut line = String::from_str("AppError [");
        line.append(tag.as_str());
        line.append("]: ");
        line.append(msg.as_str());
        match self.source_error() {
            Some(src) => {
                line.append(" | source: ");
                line.append(src.debug.as_str());
            },
            None => {},
        }
        let level = match self {
            AppError::Other(_) => LogLevel::Error,
            _ => LogLevel::Warn,
        };
        LogRecord { level, line }
    }

    /// Maps a database failure: a missing row is not found, a unique-key clash is
    /// a conflict, anything else is an other error.
    pub fn from_database_error(error: DatabaseError) -> (e: Self)
        ensures
            from_database_error_spec(error, e),
            (e is NotFound) <==> (error.kind is RowNotFound),
            (e is UniqueViolation) <==> (error.kind is Database && error.code is Some
                && error.code->0@ == "23505"@),
            (e is Other) <==> !(error.kind is RowNotFound) && !(error.kind is Database
                && error.code is Some && error.code->0@ == "23505"@),
    {
        match error.kind {
            DbErrorKind::RowNotFound => AppError::NotFound {
                user_message: String::from_str("record not found"),
                internal_message: None,
                source: Some(error.text),
            },
            _ => {
                if is_unique_violation(&error) {
                    AppError::UniqueViolation {
                        user_message: String::from_str("unique violation"),
                        internal_message: None,
                        source: Some(error.text),
                    }
                } else {
                    AppError::Other(error.text)
                }
            },
        }
    }
}

/// The kinds of database failure that the logic tells apart.
pub enum DbErrorKind {
    /// A query that expects a row found none.
    RowNotFound,
    /// The database itself reported an error, with a code when it gave one.
    Database,
    /// Any other failure (connection, decoding, ...).
    Other,
}

/// A database failure as plain values.
pub struct DatabaseError {
    pub kind: DbErrorKind,
    pub code: Option<String>,
    pub text: ErrorText,
}

/// PostgreSQL's code for a unique-key violation.
pub open spec fn unique_violation_code() -> Seq<char> {
    "23505"@
}

pub open spec fn is_unique_violation_spec(e: DatabaseError) -> bool {
    &&& e.kind is Database
    &&& e.code matches Some(c) && c@ == unique_violation_code()
}

/// What `from_database_error` gives for each database failure.
pub open spec fn from_database_error_spec(error: DatabaseError, e: AppError) -> bool {
    if error.kind is RowNotFound {
        e matches AppError::NotFound { user_message, internal_message, source }
            && user_message@ == "record not found"@ && internal_message is None
            && source == Some(error.text)
    } else if is_unique_violation_spec(error) {
        e matches AppError::UniqueViolation { user_message, internal_message, source }
            && user_message@ == "unique violation"@ && internal_message is None
            && source == Some(error.text)
    } else {
        e == AppError::Other(error.text)
    }
}

/// Whether a database failure is a unique-key violation.
pub fn is_unique_violation(err: &DatabaseError) -> (b: bool)
    ensures
        b == is_unique_violation_spec(*err),
        b <==> (err.kind is Database && err.code is Some && err.code->0@ == "23505"@),
{
    match err.kind {
        DbErrorKind::Database => match &err.code {
            Some(code) => {
                let expected = String::from_str("23505");
                *code == expected
            },
            None => false,
        },
        _ => false,
    }
}

/// An error answered with an HTML page.
pub struct HtmlError(pub AppError);

/// The page an HTML error answers with.
pub enum ErrorPage {
    NotFound,
    ServerError,
}

impl HtmlError {
    pub fn from(e: AppError) -> (h: Self)
        ensures
            h.0 == e,
    {
        HtmlError(e)
    }

    /// A missing resource shows the not-found page, anything else the server-error page.
    pub fn page(&self) -> (p: ErrorPage)
        ensures
            (p is NotFound) <==> (self.0 is NotFound),
    {
        match self.0 {
            AppError::NotFound { .. } => ErrorPage::NotFound,
            _ => ErrorPage::ServerError,
        }
    }

    pub fn status_code(&self) -> (s: u16)
        ensures
            s == status_of(self.0),
    {
        self.0.get_status_code()
    }
}

/// An error answered with a JSON body.
pub struct JsonError(pub AppError);

/// The parts of a JSON error reply: status, and the body's `status` and `message`.
pub struct JsonReply {
    pub status_code: u16,
    pub status: String,
    pub message: String,
}

impl JsonError {
    pub fn from(e: AppError) -> (j: Self)
        ensures
            j.0 == e,
    {
        JsonError(e)
    }

    /// The status code, and the body `{"status": tag, "message": user message}`.
    pub fn reply(&self) -> (r: JsonReply)
        ensures
            r.status_code == status_of(self.0),
            r.status@ == tag_of(self.0),
            r.message@ == user_message_of(self.0),
    {
        JsonReply {
            status_code: self.0.get_status_code(),
            status: self.0.get_tag(),
            message: self.0.get_user_message(),
        }
    }
}

/// Turns a missing value into an error of a chosen kind with a message.
pub trait AppErrorOptionExt<T>: Sized {
    fn not_found_msg(self, msg: &str) -> Result<T, AppError>;

    fn bad_request_msg(self, msg: &str) -> Result<T, AppError>;

    fn unauthorized_msg(self, msg: &str) -> Result<T, AppError>;

    fn captcha_msg(self, msg: &str) -> Result<T, AppError>;
}

impl<T> AppErrorOptionExt<T> for Option<T> {
    fn not_found_msg(self, msg: &str) -> (r: Result<T, AppError>)
        ensures
            match self {
                Some(v) => r == Ok::<T, AppError>(v),
                None => r matches Err(AppError::NotFound { user_message, internal_message, source })
                    && user_message@ == msg@ && internal_message is None && source is None,
            },
    {
        match self {
            Some(v) => Ok(v),
            None => Err(AppError::not_found(msg)),
        }
    }

    fn bad_request_msg(self, msg: &str) -> (r: Result<T, AppError>)
        ensures
            match self {
                Some(v) => r == Ok::<T, AppError>(v),
                None => r matches Err(AppError::BadRequest { user_message, internal_message, source })
                    && user_message@ == msg@ && internal_message is None && source is None,
            },
    {
        match self {
            Some(v) => Ok(v),
            None => Err(AppError::bad_request(msg)),
        }
    }

    fn unauthorized_msg(self, msg: &str) -> (r: Result<T, AppError>)
        ensures
            match self {
                Some(v) => r == Ok::<T, AppError>(v),
                None => r matches Err(AppError::Unauthorized { user_message, internal_message, source })
                    && user_message@ == msg@ && internal_message is None && source is None,
            },
    {
        match self {
            Some(v) => Ok(v),
            None => Err(AppError::unauthorized(msg)),
        }
    }

    fn captcha_msg(self, msg: &str) -> (r: Result<T, AppError>)
        ensures
            match self {
                Some(v) => r == Ok::<T, AppError>(v),
                None => r matches Err(AppError::CaptchaFailed { user_message, internal_message, source })
                    && user_message@ == msg@ && internal_message is None && source is None,
            },
    {
        match self {
            Some(v) => Ok(v),
            None => Err(AppError::captcha(msg)),
        }
    }
}

/// Turns a failed result into an error of a chosen kind whose user message is
/// the failure's own message and whose source is the failure.
pub trait AppErrorResultExt<T>: Sized {
    fn into_bad_request(self) -> Result<T, AppError>;

    fn into_not_found(self) -> Result<T, AppError>;

    fn into_conflict(self) -> Result<T, AppError>;

    fn into_unauthorized(self) -> Result<T, AppError>;

    fn into_captcha(self) -> Result<T, AppError>;
}

impl<T> AppErrorResultExt<T> for Result<T, ErrorText> {
    fn into_bad_request(self) -> (r: Result<T, AppError>)
        ensures
            match self {
                Ok(v) => r == Ok::<T, AppError>(v),
                Err(t) => r matches Err(AppError::BadRequest { user_message, internal_message, source })
                    && user_message@ == t.message@ && internal_message is None && source == Some(t),
            },
    {
        match self {
            Ok(v) => Ok(v),
            Err(t) => {
                let msg = t.message.clone();
                Err(AppError::bad_request_with_source(msg.as_str(), None, t))
            },
        }
    }

    fn into_not_found(self) -> (r: Result<T, AppError>)
        ensures
            match self {
                Ok(v) => r == Ok::<T, AppError>(v),
                Err(t) => r matches Err(AppError::NotFound { user_message, internal_message, source })
                    && user_message@ == t.message@ && internal_message is None && source == Some(t),
            },
    {
        match self {
            Ok(v) => Ok(v),
            Err(t) => {
                let msg = t.message.clone();
                Err(AppError::not_found_with_source(msg.as_str(), None, t))
            },
        }
    }

    fn into_conflict(self) -> (r: Result<T, AppError>)
        ensures
            match self {
                Ok(v) => r == Ok::<T, AppError>(v),
                Err(t) => r matches Err(AppError::UniqueViolation { user_message, internal_message, source })
                    && user_message@ == t.message@ && internal_message is None && source == Some(t),
            },
    {
        match self {
            Ok(v) => Ok(v),
            Err(t) => {
                let msg = t.message.clone();
                Err(AppError::conflict_with_source(msg.as_str(), None, t))
            },
        }
    }

    fn into_unauthorized(self) -> (r: Result<T, AppError>)
        ensures
            match self {
                Ok(v) => r == Ok::<T, AppError>(v),
                Err(t) => r matches Err(AppError::Unauthorized { user_message, internal_message, source })
                    && user_message@ == t.message@ && internal_message is None && source == Some(t),
            },
    {
        match self {
            Ok(v) => Ok(v),
            Err(t) => {
                let msg = t.message.clone();
                Err(AppError::unauthorized_with_source(msg.as_str(), None, t))
            },
        }
    }

    fn into_captcha(self) -> (r: Result<T, AppError>)
        ensures
            match self {
                Ok(v) => r == Ok::<T, AppError>(v),
                Err(t) => r matches Err(AppError::CaptchaFailed { user_message, internal_message, source })
                    && user_message@ == t.message@ && internal_message is None && source == Some(t),
            },
    {
        match self {
            Ok(v) => Ok(v),
            Err(t) => {
                let msg = t.message.clone();
                Err(AppError::captcha_with_source(msg.as_str(), None, t))
            },
        }
    }
}

/// Only an other error is the server's fault: it alone answers 500 and is
/// logged as an error; every other kind answers with a client error.
pub proof fn lemma_server_fault_only_other(e: AppError)
    ensures
        (status_of(e) == 500) <==> (e is Other),
        !(e is Other) ==> 400 <= status_of(e) < 500,
{
}

/// A database failure is the client's fault exactly when a row was missing or a
/// unique key clashed: only then does it answer with a client error.
pub proof fn lemma_database_error_status(error: DatabaseError, e: AppError)
    requires
        from_database_error_spec(error, e),
    ensures
        (error.kind is RowNotFound) ==> status_of(e) == 404,
        !(error.kind is RowNotFound) && is_unique_violation_spec(error) ==> status_of(e) == 400,
        !(error.kind is RowNotFound) && !is_unique_violation_spec(error) ==> status_of(e) == 500,
        source_of(e) == Some(error.text),
{
}

} // verus!
