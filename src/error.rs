//! Errors reported to clients, with the HTTP status each one maps to.
use vstd::prelude::*;
use vstd::string::*;

verus! {

#[derive(Debug)]
pub enum AppError {
    /// An unexpected failure; its text is logged, not shown.
    Internal(String),
    /// The download tool rejected a request; carries its diagnostic text.
    YtDlp(String),
    BadRequest(String),
    NotFound(String),
}

impl AppError {
    /// The HTTP status code of the error.
    pub fn status_code(&self) -> (r: u16)
        ensures
            r == match self {
                AppError::Internal(_) => 500u16,
                AppError::YtDlp(_) | AppError::BadRequest(_) => 400u16,
                AppError::NotFound(_) => 404u16,
            },
    {
        match self {
            AppError::Internal(_) => 500,
            AppError::YtDlp(_) | AppError::BadRequest(_) => 400,
            AppError::NotFound(_) => 404,
        }
    }

    /// The message shown to the client.
    pub fn message(&self) -> (r: String)
        ensures
            r@ == match self {
                AppError::Internal(_) => "An internal server error occurred"@,
                AppError::YtDlp(e) => "yt-dlp error: "@ + e@,
                AppError::BadRequest(e) => e@,
                AppError::NotFound(e) => e@,
            },
    {
        match self {
            AppError::Internal(_) => String::from_str("An internal server error occurred"),
            AppError::YtDlp(e) => String::from_str("yt-dlp error: ").concat(e.as_str()),
            AppError::BadRequest(e) => e.clone(),
            AppError::NotFound(e) => e.clone(),
        }
    }
}

} // verus!
