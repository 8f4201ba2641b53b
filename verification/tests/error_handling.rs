use dewey_lib::error::categories::ErrorCategory as CategoryTag;
use dewey_lib::error::types::AppError as TaggedError;
use dewey_lib::error::{create_error_from_error, create_error_from_string};
use dewey_lib::error::{AppError, ErrorCategory, ErrorSeverity};
use dewey_lib::error_subcategories::{
    DatabaseSubcategory, EncryptionSubcategory, IoSubcategory, KeyGenerationSubcategory,
    KeyringSubcategory, ProjectSubcategory, UnknownSubcategory,
};
use std::io;

#[test]
fn test_database_error() {
    let error = ErrorCategory::Database {
        message: "Connection failed".to_string(),
        subcategory: Some(DatabaseSubcategory::ConnectionFailed),
        code: 1001,
        severity: ErrorSeverity::Error,
    };

    assert_eq!(error.category_name(), "DATABASE");
    assert!(error.to_string().contains("Database error:"));
    assert!(matches!(error, ErrorCategory::Database { .. }));
}

#[test]
fn test_io_error() {
    let error = ErrorCategory::Io {
        message: "Permission denied".to_string(),
        subcategory: Some(IoSubcategory::PermissionDenied),
        code: 2001,
        severity: ErrorSeverity::Error,
    };

    assert_eq!(error.category_name(), "IO");
    assert!(error.to_string().contains("IO error:"));
    assert!(matches!(error, ErrorCategory::Io { .. }));
}

#[test]
fn test_project_error() {
    let error = ErrorCategory::Project {
        message: "Project not found".to_string(),
        subcategory: Some(ProjectSubcategory::NotFound),
        code: 3001,
        severity: ErrorSeverity::Error,
    };

    assert_eq!(error.category_name(), "PROJECT");
    assert!(error.to_string().contains("Project error:"));
    assert!(matches!(error, ErrorCategory::Project { .. }));
}

#[test]
fn test_error_conversion() {
    let io_error = io::Error::new(io::ErrorKind::NotFound, "File not found");
    let error: AppError = io_error.into();

    assert!(matches!(error, ErrorCategory::Io { .. }));
    assert!(error.to_string().contains("IO error:"));
}

#[test]
fn error_record_reports_its_fields() {
    let error = ErrorCategory::Project {
        message: "Project not found".to_string(),
        subcategory: Some(ProjectSubcategory::NotFound),
        code: 3001,
        severity: ErrorSeverity::Warning,
    };
    assert_eq!(error.get_code(), 3001);
    assert_eq!(error.get_severity(), ErrorSeverity::Warning);
    assert_eq!(error.get_subcategory(), Some("NotFound".to_string()));
    assert_eq!(error.message(), "Project not found");
    assert_eq!(error.to_string(), "Project error: Project not found");
}

#[test]
fn error_record_without_subcategory_reports_none() {
    let error = ErrorCategory::Project {
        message: "Project error".to_string(),
        subcategory: None,
        code: 3001,
        severity: ErrorSeverity::Error,
    };
    assert_eq!(error.get_subcategory(), None);
    assert_eq!(error.category_name(), "PROJECT");
}

#[test]
fn constructors_set_the_category_code() {
    let encryption = ErrorCategory::new_encryption(
        "bad".to_string(),
        Some(EncryptionSubcategory::DecryptionFailed),
    );
    assert_eq!(encryption.get_code(), 14000);
    assert_eq!(encryption.category_name(), "ENCRYPTION");
    assert_eq!(encryption.get_severity(), ErrorSeverity::Error);
    assert_eq!(encryption.get_subcategory(), Some("DecryptionFailed".to_string()));
    assert_eq!(ErrorCategory::new_database("m".to_string(), None).get_code(), 1000);
    assert_eq!(ErrorCategory::new_migration("m".to_string(), None).get_code(), 2000);
    assert_eq!(ErrorCategory::new_io("m".to_string(), None).get_code(), 3000);
    assert_eq!(ErrorCategory::new_icon_generation("m".to_string(), None).get_code(), 4000);
    assert_eq!(ErrorCategory::new_config("m".to_string(), None).get_code(), 5000);
    assert_eq!(ErrorCategory::new_keyring("m".to_string(), None).get_code(), 7000);
    assert_eq!(ErrorCategory::new_key_generation("m".to_string(), None).get_code(), 8000);
    assert_eq!(ErrorCategory::new_project("m".to_string(), None).get_code(), 9000);
    assert_eq!(ErrorCategory::new_key_management("m".to_string(), None).get_code(), 15000);
}

#[test]
fn bare_messages_become_unknown_errors() {
    let from_string = create_error_from_string("boom".to_string());
    assert_eq!(from_string.category_name(), "UNKNOWN");
    assert_eq!(from_string.get_code(), 1000);
    assert_eq!(from_string.to_string(), "Unknown error: boom");

    let from_error = create_error_from_error(io::Error::new(io::ErrorKind::Other, "disk"));
    assert_eq!(from_error.message(), "disk");
    assert_eq!(from_error.get_code(), 1000);

    let converted: ErrorCategory = "plain".into();
    assert_eq!(converted.get_code(), 9999);
    assert_eq!(converted.message(), "plain");
    let converted: ErrorCategory = String::from("owned").into();
    assert_eq!(converted.get_code(), 9999);
    assert_eq!(converted.message(), "owned");
}

#[test]
fn io_errors_keep_their_text_and_code() {
    let error: ErrorCategory = io::Error::new(io::ErrorKind::NotFound, "File not found").into();
    assert_eq!(error.get_code(), 2000);
    assert_eq!(error.message(), "IO error: File not found");
    assert_eq!(error.get_subcategory(), None);
}

#[test]
fn tagged_error_code_is_base_plus_position() {
    let error = TaggedError::database(
        "q".to_string(),
        DatabaseSubcategory::QueryFailed,
        ErrorSeverity::Error,
    );
    assert_eq!(error.code(), 1001);
    let error = TaggedError::encryption(
        "e".to_string(),
        EncryptionSubcategory::Utf8DecodeFailed,
        ErrorSeverity::Critical,
    );
    assert_eq!(error.code(), 10008);
    assert_eq!(error.severity, ErrorSeverity::Critical);
    let error = TaggedError::unknown(
        "u".to_string(),
        UnknownSubcategory::External,
        ErrorSeverity::Info,
    );
    assert_eq!(error.code(), 15002);
    let error = TaggedError::key_generation(
        "k".to_string(),
        KeyGenerationSubcategory::InvalidLength,
        ErrorSeverity::Error,
    );
    assert_eq!(error.code(), 8002);
    assert_eq!(error.message, "k");
}

#[test]
fn category_tags_describe_themselves() {
    let tag = CategoryTag::Config(dewey_lib::error_subcategories::ConfigSubcategory::ParseError);
    assert_eq!(tag.to_string(), "Configuration error: ParseError");
    assert_eq!(tag.code(), 4000);
    let tag = CategoryTag::Keyring(KeyringSubcategory::InvalidKey);
    assert_eq!(tag.subcategory_name(), "InvalidKey");
    assert_eq!(tag.code(), 7003);
}

#[test]
fn conversions_between_the_error_types() {
    let tag = CategoryTag::Auth(dewey_lib::error_subcategories::AuthSubcategory::TokenExpired);
    let error: TaggedError = tag.into();
    assert_eq!(error.message, "Authentication error: TokenExpired");
    assert_eq!(error.category, tag);
    assert_eq!(error.severity, ErrorSeverity::Error);
    let back: CategoryTag = error.into();
    assert_eq!(back, tag);

    let tag: CategoryTag = "anything".into();
    assert_eq!(tag, CategoryTag::Unknown(UnknownSubcategory::Unexpected));
    let tag: CategoryTag = io::Error::new(io::ErrorKind::NotFound, "x").into();
    assert_eq!(tag, CategoryTag::Io(IoSubcategory::PathNotFound));
    let tag: CategoryTag = io::Error::new(io::ErrorKind::PermissionDenied, "x").into();
    assert_eq!(tag, CategoryTag::Io(IoSubcategory::PermissionDenied));
    let tag: CategoryTag = io::Error::new(io::ErrorKind::AlreadyExists, "x").into();
    assert_eq!(tag, CategoryTag::Io(IoSubcategory::AlreadyExists));
    let tag: CategoryTag = io::Error::new(io::ErrorKind::TimedOut, "x").into();
    assert_eq!(tag, CategoryTag::Io(IoSubcategory::ReadFailed));
}
