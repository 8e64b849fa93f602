//! The daemon's errors, the HTTP status each is answered with, and the
//! envelope every answer is wrapped in.
use vstd::prelude::*;
use crate::actions::{StartError, start_error_text};
use crate::download::{AddError, AddErrorModel, add_error_view};
use crate::rpc::{Aria2Error, aria2_error_text};
use crate::text::push_str;

verus! {

/// Every answer: the data (the `ok` answer), or an error message.
#[derive(Clone, Debug)]
pub enum ApiResponse<T> {
    Success { data: T },
    Error { message: String },
}

/// Why a request failed.
#[derive(Clone, Debug)]
pub enum AppError {
    NotFound(String),
    /// The database's message.
    Database(String),
    BadRequest(String),
    Aria2(Aria2Error),
    Internal(String),
    PayloadTooLarge(String),
    Conflict(String),
    Unavailable(String),
}

/// The HTTP status of each error.
pub open spec fn status_of(e: AppError) -> u16 {
    match e {
        AppError::NotFound(_) => 404,
        AppError::BadRequest(_) => 400,
        AppError::Database(_) => 500,
        AppError::Aria2(_) => 502,
        AppError::Internal(_) => 500,
        AppError::PayloadTooLarge(_) => 413,
        AppError::Conflict(_) => 409,
        AppError::Unavailable(_) => 503,
    }
}

/// The message an error answer carries: the bare message, or the
/// database's or aria2's own text.
pub open spec fn answer_text(e: AppError) -> Seq<char> {
    match e {
        AppError::NotFound(m) => m@,
        AppError::BadRequest(m) => m@,
        AppError::Database(m) => m@,
        AppError::Aria2(a) => aria2_error_text(a),
        AppError::Internal(m) => m@,
        AppError::PayloadTooLarge(m) => m@,
        AppError::Conflict(m) => m@,
        AppError::Unavailable(m) => m@,
    }
}

impl AppError {
    pub fn status_code(&self) -> (r: u16)
        ensures
            r == status_of(*self),
    {
        match self {
            AppError::NotFound(_) => 404,
            AppError::BadRequest(_) => 400,
            AppError::Database(_) => 500,
            AppError::Aria2(_) => 502,
            AppError::Internal(_) => 500,
            AppError::PayloadTooLarge(_) => 413,
            AppError::Conflict(_) => 409,
            AppError::Unavailable(_) => 503,
        }
    }

    /// The error answer: its status and the envelope with its message.
    pub fn into_response(self) -> (r: (u16, ApiResponse<()>))
        ensures
            r.0 == status_of(self),
            r.1 matches ApiResponse::Error { message } && message@ == answer_text(self),
    {
        let status = self.status_code();
        let message = match self {
            AppError::NotFound(m) => m,
            AppError::BadRequest(m) => m,
            AppError::Database(m) => m,
            AppError::Aria2(a) => a.message(),
            AppError::Internal(m) => m,
            AppError::PayloadTooLarge(m) => m,
            AppError::Conflict(m) => m,
            AppError::Unavailable(m) => m,
        };
        (status, ApiResponse::Error { message })
    }
}

pub open spec fn add_error_to_app(e: AddErrorModel) -> (u16, Seq<char>) {
    match e {
        AddErrorModel::BadRequest(m) => (400, m),
        AddErrorModel::PayloadTooLarge(m) => (413, m),
        AddErrorModel::Internal(m) => (500, m),
    }
}

/// A refused new download is a bad request or too large; one the server
/// cannot place is an internal error.
pub fn from_add_error(e: AddError) -> (r: AppError)
    ensures
        (status_of(r), answer_text(r)) == add_error_to_app(add_error_view(e)),
{
    match e {
        AddError::BadRequest(m) => AppError::BadRequest(m),
        AddError::PayloadTooLarge(m) => AppError::PayloadTooLarge(m),
        AddError::Internal(m) => AppError::Internal(m),
    }
}

/// A download that cannot go to aria2: missing metainfo is a bad request,
/// a running one a conflict, one never started a bad request.
pub fn from_start_error(e: StartError) -> (r: AppError)
    ensures
        answer_text(r) == start_error_text(e),
        status_of(r) == (match e {
            StartError::Conflict => 409u16,
            _ => 400u16,
        }),
{
    let message = crate::actions::start_error_message(e).to_owned();
    match e {
        StartError::Conflict => AppError::Conflict(message),
        _ => AppError::BadRequest(message),
    }
}

/// A stopping daemon takes no more changes.
pub fn activity_check(stopping: bool) -> (r: Result<(), AppError>)
    ensures
        !stopping ==> r is Ok,
        stopping ==> (r matches Err(AppError::Unavailable(m)) && m@ == "daemon is shutting down"@),
{
    if stopping {
        Err(AppError::Unavailable("daemon is shutting down".to_owned()))
    } else {
        Ok(())
    }
}

} // verus!
