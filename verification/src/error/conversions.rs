//! Conversions between the error types, and from the errors of the
//! libraries that the application calls.

use vstd::prelude::*;
use crate::error::ErrorSeverity;
use crate::error::categories::ErrorCategory;
use crate::error::types::AppError;
use crate::error_subcategories::{
    ConfigSubcategory, EncryptionSubcategory, IoSubcategory, UnknownSubcategory,
};

verus! {

impl From<AppError> for ErrorCategory {
    /// The category of the error.
    fn from(error: AppError) -> (category: ErrorCategory)
        ensures
            category == error.category,
    {
        error.category
    }
}

impl vstd::std_specs::convert::FromSpecImpl<AppError> for ErrorCategory {
    open spec fn obeys_from_spec() -> bool {
        true
    }

    open spec fn from_spec(error: AppError) -> ErrorCategory {
        error.category
    }
}

impl From<String> for ErrorCategory {
    /// A bare message has no category of its own.
    fn from(_s: String) -> (category: ErrorCategory)
        ensures
            category == ErrorCategory::Unknown(UnknownSubcategory::Unexpected),
    {
        ErrorCategory::Unknown(UnknownSubcategory::Unexpected)
    }
}

impl vstd::std_specs::convert::FromSpecImpl<String> for ErrorCategory {
    open spec fn obeys_from_spec() -> bool {
        true
    }

    open spec fn from_spec(_s: String) -> ErrorCategory {
        ErrorCategory::Unknown(UnknownSubcategory::Unexpected)
    }
}

impl<'a> From<&'a str> for ErrorCategory {
    /// A bare message has no category of its own.
    fn from(_s: &'a str) -> (category: ErrorCategory)
        ensures
            category == ErrorCategory::Unknown(UnknownSubcategory::Unexpected),
    {
        ErrorCategory::Unknown(UnknownSubcategory::Unexpected)
    }
}

impl<'a> vstd::std_specs::convert::FromSpecImpl<&'a str> for ErrorCategory {
    open spec fn obeys_from_spec() -> bool {
        true
    }

    open spec fn from_spec(_s: &'a str) -> ErrorCategory {
        ErrorCategory::Unknown(UnknownSubcategory::Unexpected)
    }
}

impl From<base64::DecodeError> for ErrorCategory {
    fn from(_error: base64::DecodeError) -> (category: ErrorCategory)
        ensures
            category == ErrorCategory::Encryption(EncryptionSubcategory::Base64DecodeFailed),
    {
        ErrorCategory::Encryption(EncryptionSubcategory::Base64DecodeFailed)
    }
}

impl vstd::std_specs::convert::FromSpecImpl<base64::DecodeError> for ErrorCategory {
    open spec fn obeys_from_spec() -> bool {
        true
    }

    open spec fn from_spec(_error: base64::DecodeError) -> ErrorCategory {
        ErrorCategory::Encryption(EncryptionSubcategory::Base64DecodeFailed)
    }
}

/// `serde_json::Error`: why a text was not read as JSON.
#[verifier::external_type_specification]
#[verifier::external_body]
pub struct ExJsonError(serde_json::Error);

impl From<serde_json::Error> for ErrorCategory {
    fn from(_error: serde_json::Error) -> (category: ErrorCategory)
        ensures
            category == ErrorCategory::Config(ConfigSubcategory::ParseError),
    {
        ErrorCategory::Config(ConfigSubcategory::ParseError)
    }
}

impl vstd::std_specs::convert::FromSpecImpl<serde_json::Error> for ErrorCategory {
    open spec fn obeys_from_spec() -> bool {
        true
    }

    open spec fn from_spec(_error: serde_json::Error) -> ErrorCategory {
        ErrorCategory::Config(ConfigSubcategory::ParseError)
    }
}

/// What went wrong in an I/O operation, as far as the categories tell it
/// apart.
#[derive(Debug, Clone, Copy, PartialEq, Eq, Structural)]
pub enum IoFailure {
    NotFound,
    PermissionDenied,
    AlreadyExists,
    Other,
}

/// `std::io::Error::kind`, with every kind that has no subcategory of its
/// own counted as `Other`.
#[verifier::external_body]
fn io_failure(error: &std::io::Error) -> IoFailure {
    match error.kind() {
        std::io::ErrorKind::NotFound => IoFailure::NotFound,
        std::io::ErrorKind::PermissionDenied => IoFailure::PermissionDenied,
        std::io::ErrorKind::AlreadyExists => IoFailure::AlreadyExists,
        _ => IoFailure::Other,
    }
}

impl IoFailure {
    /// The I/O category of the failure.
    pub open spec fn category_model(self) -> ErrorCategory {
        match self {
            IoFailure::NotFound => ErrorCategory::Io(IoSubcategory::PathNotFound),
            IoFailure::PermissionDenied => ErrorCategory::Io(IoSubcategory::PermissionDenied),
            IoFailure::AlreadyExists => ErrorCategory::Io(IoSubcategory::AlreadyExists),
            IoFailure::Other => ErrorCategory::Io(IoSubcategory::ReadFailed),
        }
    }

    /// The I/O category of the failure.
    pub fn category(self) -> (category: ErrorCategory)
        ensures
            category == self.category_model(),
    {
        match self {
            IoFailure::NotFound => ErrorCategory::Io(IoSubcategory::PathNotFound),
            IoFailure::PermissionDenied => ErrorCategory::Io(IoSubcategory::PermissionDenied),
            IoFailure::AlreadyExists => ErrorCategory::Io(IoSubcategory::AlreadyExists),
            IoFailure::Other => ErrorCategory::Io(IoSubcategory::ReadFailed),
        }
    }
}

impl From<std::io::Error> for ErrorCategory {
    /// An I/O category, by the kind of the error.
    fn from(error: std::io::Error) -> (category: ErrorCategory)
        ensures
            category is Io,
    {
        io_failure(&error).category()
    }
}

impl vstd::std_specs::convert::FromSpecImpl<std::io::Error> for ErrorCategory {
    open spec fn obeys_from_spec() -> bool {
        false
    }

    open spec fn from_spec(error: std::io::Error) -> ErrorCategory {
        arbitrary()
    }
}

impl From<ErrorCategory> for AppError {
    /// An error of the category, with the category's description as its
    /// message.
    fn from(category: ErrorCategory) -> (error: AppError)
        ensures
            error.message@ == category.description_text(),
            error.category == category,
            error.severity == ErrorSeverity::Error,
    {
        AppError::new(category.to_string(), category, ErrorSeverity::Error)
    }
}

impl vstd::std_specs::convert::FromSpecImpl<ErrorCategory> for AppError {
    open spec fn obeys_from_spec() -> bool {
        false
    }

    open spec fn from_spec(category: ErrorCategory) -> AppError {
        arbitrary()
    }
}

} // verus!
