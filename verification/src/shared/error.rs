//! The library's error type and what it shows to a user.

use vstd::prelude::*;

use crate::text::concat;

verus! {

/// Errors of the dashboard. The outside errors of the HTTP client and of
/// template rendering are carried as their message text.
#[derive(Debug)]
pub enum AppError {
    Config(String),
    Http(String),
    Template(String),
    Internal(String),
}

pub type AppResult<T> = Result<T, AppError>;

pub enum AppErrorView {
    Config(Seq<char>),
    Http(Seq<char>),
    Template(Seq<char>),
    Internal(Seq<char>),
}

impl View for AppError {
    type V = AppErrorView;

    open spec fn view(&self) -> AppErrorView {
        match self {
            AppError::Config(s) => AppErrorView::Config(s@),
            AppError::Http(s) => AppErrorView::Http(s@),
            AppError::Template(s) => AppErrorView::Template(s@),
            AppError::Internal(s) => AppErrorView::Internal(s@),
        }
    }
}

/// The text of an error, as its `Display` shows it.
pub open spec fn error_message(e: AppErrorView) -> Seq<char> {
    match e {
        AppErrorView::Config(s) => "Config error: "@ + s,
        AppErrorView::Http(s) => "HTTP client error: "@ + s,
        AppErrorView::Template(s) => "Template error: "@ + s,
        AppErrorView::Internal(s) => "Internal error: "@ + s,
    }
}

/// The HTTP status of an error response.
pub open spec fn error_status(e: AppErrorView) -> u16 {
    match e {
        AppErrorView::Http(_) => 502,
        _ => 500,
    }
}

impl AppError {
    pub fn message(&self) -> (r: String)
        ensures
            r@ == error_message(self@),
    {
        match self {
            AppError::Config(s) => concat("Config error: ", s.as_str()),
            AppError::Http(s) => concat("HTTP client error: ", s.as_str()),
            AppError::Template(s) => concat("Template error: ", s.as_str()),
            AppError::Internal(s) => concat("Internal error: ", s.as_str()),
        }
    }

    /// Stands in for `Display`: the error's message.
    pub fn to_string(&self) -> (r: String)
        ensures
            r@ == error_message(self@),
    {
        self.message()
    }

    pub fn status_code(&self) -> (r: u16)
        ensures
            r == error_status(self@),
    {
        match self {
            AppError::Http(_) => 502,
            _ => 500,
        }
    }

    /// The body of the error response: `Error: ` followed by the message.
    pub fn response_body(&self) -> (r: String)
        ensures
            r@ == "Error: "@ + error_message(self@),
    {
        let m = self.message();
        concat("Error: ", m.as_str())
    }
}

} // verus!
