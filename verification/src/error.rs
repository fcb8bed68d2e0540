//! Errors of the library's own logic.

use vstd::prelude::*;
use crate::text::{owned, push_str};

verus! {

/// Errors raised by the library's own logic.
#[derive(Debug, Clone, PartialEq, Eq)]
pub enum AppError {
    /// The AI provider answered with an error or could not be used.
    AiProvider(String),
    /// A configuration value is missing or invalid.
    Config(String),
    /// The requested item does not exist.
    NotFound(String),
    /// Any other failure.
    Internal(String),
}

/// Result type of the library.
pub type AppResult<T> = Result<T, AppError>;

/// The text an error is shown with.
pub open spec fn error_text(e: AppError) -> Seq<char> {
    match e {
        AppError::AiProvider(m) => "AI provider error: "@ + m@,
        AppError::Config(m) => "Configuration error: "@ + m@,
        AppError::NotFound(m) => "Not found: "@ + m@,
        AppError::Internal(m) => "Internal error: "@ + m@,
    }
}

impl AppError {
    /// The text the error is shown with.
    pub fn message(&self) -> (r: String)
        ensures
            r@ == error_text(*self),
    {
        let (head, m) = match self {
            AppError::AiProvider(m) => ("AI provider error: ", m),
            AppError::Config(m) => ("Configuration error: ", m),
            AppError::NotFound(m) => ("Not found: ", m),
            AppError::Internal(m) => ("Internal error: ", m),
        };
        let mut r = owned(head);
        push_str(&mut r, m.as_str());
        r
    }
}

} // verus!
