//! The errors of the grading service.

use vstd::prelude::*;
use vstd::string::StringExecFns;

verus! {

/// What can go wrong, each with its message.
#[derive(Debug, PartialEq, Eq)]
pub enum AppError {
    /// The persistence layer failed.
    Database(String),
    /// A request to another service failed.
    Http(String),
    /// A document did not read as JSON.
    Json(String),
    /// A file could not be read or written.
    Io(String),
    /// The request is malformed.
    Validation(String),
    /// Nothing is known under the given code.
    NotFound(String),
    /// The code is already taken.
    Conflict(String),
    /// No provider gave a reply for a question.
    AiProvider(String),
    /// Anything else that failed inside the service.
    Internal(String),
}

/// An `AppError` with its message as plain text.
pub enum AppErrorView {
    Database(Seq<char>),
    Http(Seq<char>),
    Json(Seq<char>),
    Io(Seq<char>),
    Validation(Seq<char>),
    NotFound(Seq<char>),
    Conflict(Seq<char>),
    AiProvider(Seq<char>),
    Internal(Seq<char>),
}

impl View for AppError {
    type V = AppErrorView;

    open spec fn view(&self) -> AppErrorView {
        match self {
            AppError::Database(m) => AppErrorView::Database(m@),
            AppError::Http(m) => AppErrorView::Http(m@),
            AppError::Json(m) => AppErrorView::Json(m@),
            AppError::Io(m) => AppErrorView::Io(m@),
            AppError::Validation(m) => AppErrorView::Validation(m@),
            AppError::NotFound(m) => AppErrorView::NotFound(m@),
            AppError::Conflict(m) => AppErrorView::Conflict(m@),
            AppError::AiProvider(m) => AppErrorView::AiProvider(m@),
            AppError::Internal(m) => AppErrorView::Internal(m@),
        }
    }
}

/// The HTTP status under which an error is reported.
pub open spec fn status_code_of(error: AppErrorView) -> int {
    match error {
        AppErrorView::Validation(_) => 400,
        AppErrorView::NotFound(_) => 404,
        AppErrorView::Conflict(_) => 409,
        AppErrorView::Database(_) => 500,
        AppErrorView::Http(_) => 502,
        AppErrorView::Json(_) => 400,
        AppErrorView::Io(_) => 500,
        AppErrorView::AiProvider(_) => 502,
        AppErrorView::Internal(_) => 500,
    }
}

/// The message an error carries.
pub open spec fn detail_of(error: AppErrorView) -> Seq<char> {
    match error {
        AppErrorView::Database(m) => m,
        AppErrorView::Http(m) => m,
        AppErrorView::Json(m) => m,
        AppErrorView::Io(m) => m,
        AppErrorView::Validation(m) => m,
        AppErrorView::NotFound(m) => m,
        AppErrorView::Conflict(m) => m,
        AppErrorView::AiProvider(m) => m,
        AppErrorView::Internal(m) => m,
    }
}

/// The words that introduce the message of each kind of error.
pub open spec fn heading_of(error: AppErrorView) -> Seq<char> {
    match error {
        AppErrorView::Database(_) => "Database error: "@,
        AppErrorView::Http(_) => "HTTP client error: "@,
        AppErrorView::Json(_) => "JSON parsing error: "@,
        AppErrorView::Io(_) => "IO error: "@,
        AppErrorView::Validation(_) => "Validation error: "@,
        AppErrorView::NotFound(_) => "Not found: "@,
        AppErrorView::Conflict(_) => "Conflict: "@,
        AppErrorView::AiProvider(_) => "AI provider error: "@,
        AppErrorView::Internal(_) => "Internal server error: "@,
    }
}

impl Clone for AppError {
    fn clone(&self) -> (r: Self)
        ensures
            r@ == self@,
    {
        match self {
            AppError::Database(m) => AppError::Database(m.clone()),
            AppError::Http(m) => AppError::Http(m.clone()),
            AppError::Json(m) => AppError::Json(m.clone()),
            AppError::Io(m) => AppError::Io(m.clone()),
            AppError::Validation(m) => AppError::Validation(m.clone()),
            AppError::NotFound(m) => AppError::NotFound(m.clone()),
            AppError::Conflict(m) => AppError::Conflict(m.clone()),
            AppError::AiProvider(m) => AppError::AiProvider(m.clone()),
            AppError::Internal(m) => AppError::Internal(m.clone()),
        }
    }
}

impl AppError {
    /// The HTTP status under which the error is reported.
    pub fn status_code(&self) -> (code: u16)
        ensures
            code == status_code_of(self@),
    {
        match self {
            AppError::Validation(_) => 400,
            AppError::NotFound(_) => 404,
            AppError::Conflict(_) => 409,
            AppError::Database(_) => 500,
            AppError::Http(_) => 502,
            AppError::Json(_) => 400,
            AppError::Io(_) => 500,
            AppError::AiProvider(_) => 502,
            AppError::Internal(_) => 500,
        }
    }

    /// The message the error carries, as it goes into the body of a
    /// response.
    pub fn detail(&self) -> (r: String)
        ensures
            r@ == detail_of(self@),
    {
        match self {
            AppError::Database(m) => m.clone(),
            AppError::Http(m) => m.clone(),
            AppError::Json(m) => m.clone(),
            AppError::Io(m) => m.clone(),
            AppError::Validation(m) => m.clone(),
            AppError::NotFound(m) => m.clone(),
            AppError::Conflict(m) => m.clone(),
            AppError::AiProvider(m) => m.clone(),
            AppError::Internal(m) => m.clone(),
        }
    }

    /// The error in words: its heading, then its message.
    pub fn message(&self) -> (r: String)
        ensures
            r@ == heading_of(self@) + detail_of(self@),
    {
        let heading = match self {
            AppError::Database(_) => "Database error: ",
            AppError::Http(_) => "HTTP client error: ",
            AppError::Json(_) => "JSON parsing error: ",
            AppError::Io(_) => "IO error: ",
            AppError::Validation(_) => "Validation error: ",
            AppError::NotFound(_) => "Not found: ",
            AppError::Conflict(_) => "Conflict: ",
            AppError::AiProvider(_) => "AI provider error: ",
            AppError::Internal(_) => "Internal server error: ",
        };
        let mut out = String::from_str(heading);
        let detail = self.detail();
        out.append(detail.as_str());
        out
    }
}

} // verus!
