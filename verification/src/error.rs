//! The errors that the conversion reports.
use vstd::prelude::*;
use crate::text::{decimal, push_decimal};

verus! {

broadcast use vstd::string::group_string_axioms;

#[derive(Debug)]
pub enum C2lError {
    InvalidUrl(String),
    UnsupportedUrl(String),
    PrivateOrUnavailable(String),
    PgnUnavailable(String),
    RetryableHttp { url: String, status: u16, message: String },
    RetryableRequest { url: String, message: String },
}

/// The text each error displays.
pub open spec fn error_message(e: C2lError) -> Seq<char> {
    match e {
        C2lError::InvalidUrl(s) => "Invalid URL format: "@ + s@,
        C2lError::UnsupportedUrl(s) => "Unsupported Chess.com URL format: "@ + s@,
        C2lError::PrivateOrUnavailable(s) => "Private or restricted game: "@ + s@,
        C2lError::PgnUnavailable(s) => "Failed to retrieve PGN: "@ + s@,
        C2lError::RetryableHttp { url, status, message } => "Temporary HTTP error while requesting "@
            + url@ + ": status="@ + decimal(status as nat),
        C2lError::RetryableRequest { url, message } => "Temporary request failure while requesting "@
            + url@ + ": "@ + message@,
    }
}

/// `true` for the errors that a new attempt may overcome.
pub open spec fn is_retryable(e: C2lError) -> bool {
    e is RetryableHttp || e is RetryableRequest
}

impl C2lError {
    /// The text of the error, as its `Display` shows it.
    pub fn message(&self) -> (res: String)
        ensures
            res@ == error_message(*self),
    {
        let mut out = String::new();
        match self {
            C2lError::InvalidUrl(s) => {
                out.append("Invalid URL format: ");
                out.append(s.as_str());
            },
            C2lError::UnsupportedUrl(s) => {
                out.append("Unsupported Chess.com URL format: ");
                out.append(s.as_str());
            },
            C2lError::PrivateOrUnavailable(s) => {
                out.append("Private or restricted game: ");
                out.append(s.as_str());
            },
            C2lError::PgnUnavailable(s) => {
                out.append("Failed to retrieve PGN: ");
                out.append(s.as_str());
            },
            C2lError::RetryableHttp { url, status, message } => {
                out.append("Temporary HTTP error while requesting ");
                out.append(url.as_str());
                out.append(": status=");
                push_decimal(&mut out, *status as u64);
            },
            C2lError::RetryableRequest { url, message } => {
                out.append("Temporary request failure while requesting ");
                out.append(url.as_str());
                out.append(": ");
                out.append(message.as_str());
            },
        }
        out
    }

    /// `true` for the retryable kinds.
    pub fn is_retryable(&self) -> (res: bool)
        ensures
            res == is_retryable(*self),
    {
        match self {
            C2lError::RetryableHttp { .. } => true,
            C2lError::RetryableRequest { .. } => true,
            _ => false,
        }
    }
}

} // verus!
