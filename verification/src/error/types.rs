//! The tagged application error.

use vstd::prelude::*;
use crate::error::ErrorSeverity;
use crate::error::categories::ErrorCategory;

verus! {

/// The main error type for the application
#[derive(Debug)]
pub struct AppError {
    pub message: String,
    pub category: ErrorCategory,
    pub severity: ErrorSeverity,
}

/// The result of an operation that can fail with an [`AppError`].
pub type AppResult<T> = Result<T, AppError>;

impl AppError {
    pub fn new(message: String, category: ErrorCategory, severity: ErrorSeverity) -> (error: Self)
        ensures
            error == (AppError { message, category, severity }),
    {
        Self { message, category, severity }
    }

    /// A code that identifies the category and subcategory of the error.
    pub fn code(&self) -> (code: u32)
        ensures
            code == self.category.code_value(),
    {
        self.category.code()
    }
}

} // verus!
