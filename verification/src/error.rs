//! The error type of the library and the text each error shows.
use vstd::prelude::*;
use crate::text::concat2;

verus! {

/// What can go wrong in a request. Failures of the file system, of JSON
/// handling and of HTTP are carried as their message text.
#[derive(Debug)]
pub enum AppError {
    Io(String),
    Json(String),
    Http(String),
    Api(String),
    SessionNotFound(String),
    MissingApiKey(String),
    Path(String),
}

/// The text shown for an error.
pub open spec fn app_error_text(e: AppError) -> Seq<char> {
    match e {
        AppError::Io(m) => "IO error: "@ + m@,
        AppError::Json(m) => "JSON error: "@ + m@,
        AppError::Http(m) => "HTTP error: "@ + m@,
        AppError::Api(m) => "API error: "@ + m@,
        AppError::SessionNotFound(m) => "Session not found: "@ + m@,
        AppError::MissingApiKey(m) => "Config missing API key for: "@ + m@,
        AppError::Path(m) => "Path error: "@ + m@,
    }
}

impl AppError {
    /// The error's text, as the user sees it.
    pub fn message(&self) -> (r: String)
        ensures
            r@ == app_error_text(*self),
    {
        match self {
            AppError::Io(m) => concat2("IO error: ", m.as_str()),
            AppError::Json(m) => concat2("JSON error: ", m.as_str()),
            AppError::Http(m) => concat2("HTTP error: ", m.as_str()),
            AppError::Api(m) => concat2("API error: ", m.as_str()),
            AppError::SessionNotFound(m) => concat2("Session not found: ", m.as_str()),
            AppError::MissingApiKey(m) => concat2("Config missing API key for: ", m.as_str()),
            AppError::Path(m) => concat2("Path error: ", m.as_str()),
        }
    }
}

} // verus!
