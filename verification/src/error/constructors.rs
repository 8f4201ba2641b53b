//! Convenience constructors, one for each error category.

use vstd::prelude::*;
use crate::error::ErrorSeverity;
use crate::error::categories::ErrorCategory;
use crate::error::types::AppError;
use crate::error_subcategories::{
    AuthSubcategory, ConfigSubcategory, ConnectionSubcategory, DatabaseSubcategory,
    EncryptionSubcategory, IconGenerationSubcategory, IconSubcategory, IoSubcategory,
    KeyGenerationSubcategory, KeyManagementSubcategory, KeyringSubcategory, MigrationSubcategory,
    ProjectSubcategory, UnknownSubcategory, ValidationSubcategory,
};

verus! {

impl AppError {
    pub fn database(message: String, subcategory: DatabaseSubcategory, severity: ErrorSeverity) -> (error: Self)
        ensures
            error == (AppError { message, category: ErrorCategory::Database(subcategory), severity }),
    {
        Self::new(message, ErrorCategory::Database(subcategory), severity)
    }

    pub fn migration(message: String, subcategory: MigrationSubcategory, severity: ErrorSeverity) -> (error: Self)
        ensures
            error == (AppError { message, category: ErrorCategory::Migration(subcategory), severity }),
    {
        Self::new(message, ErrorCategory::Migration(subcategory), severity)
    }

    pub fn io(message: String, subcategory: IoSubcategory, severity: ErrorSeverity) -> (error: Self)
        ensures
            error == (AppError { message, category: ErrorCategory::Io(subcategory), severity }),
    {
        Self::new(message, ErrorCategory::Io(subcategory), severity)
    }

    pub fn config(message: String, subcategory: ConfigSubcategory, severity: ErrorSeverity) -> (error: Self)
        ensures
            error == (AppError { message, category: ErrorCategory::Config(subcategory), severity }),
    {
        Self::new(message, ErrorCategory::Config(subcategory), severity)
    }

    pub fn icon_generation(message: String, subcategory: IconGenerationSubcategory, severity: ErrorSeverity) -> (error: Self)
        ensures
            error == (AppError { message, category: ErrorCategory::IconGeneration(subcategory), severity }),
    {
        Self::new(message, ErrorCategory::IconGeneration(subcategory), severity)
    }

    pub fn icon(message: String, subcategory: IconSubcategory, severity: ErrorSeverity) -> (error: Self)
        ensures
            error == (AppError { message, category: ErrorCategory::Icon(subcategory), severity }),
    {
        Self::new(message, ErrorCategory::Icon(subcategory), severity)
    }

    pub fn keyring(message: String, subcategory: KeyringSubcategory, severity: ErrorSeverity) -> (error: Self)
        ensures
            error == (AppError { message, category: ErrorCategory::Keyring(subcategory), severity }),
    {
        Self::new(message, ErrorCategory::Keyring(subcategory), severity)
    }

    pub fn key_generation(message: String, subcategory: KeyGenerationSubcategory, severity: ErrorSeverity) -> (error: Self)
        ensures
            error == (AppError { message, category: ErrorCategory::KeyGeneration(subcategory), severity }),
    {
        Self::new(message, ErrorCategory::KeyGeneration(subcategory), severity)
    }

    pub fn project(message: String, subcategory: ProjectSubcategory, severity: ErrorSeverity) -> (error: Self)
        ensures
            error == (AppError { message, category: ErrorCategory::Project(subcategory), severity }),
    {
        Self::new(message, ErrorCategory::Project(subcategory), severity)
    }

    pub fn encryption(message: String, subcategory: EncryptionSubcategory, severity: ErrorSeverity) -> (error: Self)
        ensures
            error == (AppError { message, category: ErrorCategory::Encryption(subcategory), severity }),
    {
        Self::new(message, ErrorCategory::Encryption(subcategory), severity)
    }

    pub fn key_management(message: String, subcategory: KeyManagementSubcategory, severity: ErrorSeverity) -> (error: Self)
        ensures
            error == (AppError { message, category: ErrorCategory::KeyManagement(subcategory), severity }),
    {
        Self::new(message, ErrorCategory::KeyManagement(subcategory), severity)
    }

    pub fn connection(message: String, subcategory: ConnectionSubcategory, severity: ErrorSeverity) -> (error: Self)
        ensures
            error == (AppError { message, category: ErrorCategory::Connection(subcategory), severity }),
    {
        Self::new(message, ErrorCategory::Connection(subcategory), severity)
    }

    pub fn validation(message: String, subcategory: ValidationSubcategory, severity: ErrorSeverity) -> (error: Self)
        ensures
            error == (AppError { message, category: ErrorCategory::Validation(subcategory), severity }),
    {
        Self::new(message, ErrorCategory::Validation(subcategory), severity)
    }

    pub fn auth(message: String, subcategory: AuthSubcategory, severity: ErrorSeverity) -> (error: Self)
        ensures
            error == (AppError { message, category: ErrorCategory::Auth(subcategory), severity }),
    {
        Self::new(message, ErrorCategory::Auth(subcategory), severity)
    }

    pub fn unknown(message: String, subcategory: UnknownSubcategory, severity: ErrorSeverity) -> (error: Self)
        ensures
            error == (AppError { message, category: ErrorCategory::Unknown(subcategory), severity }),
    {
        Self::new(message, ErrorCategory::Unknown(subcategory), severity)
    }

}

} // verus!
