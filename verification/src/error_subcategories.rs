//! Subcategories of the error taxonomy.
//!
//! Every error category is refined by one of the enums below. Each enum has a
//! stable textual name per variant (`name`) and a stable position (`ordinal`),
//! which the error types use to build messages and numeric codes.

use vstd::prelude::*;

verus! {

/// Subcategories for database-related errors
#[derive(Debug, Clone, Copy, PartialEq, Eq, Structural)]
pub enum DatabaseSubcategory {
    /// Failed to establish a connection to the database
    ConnectionFailed,
    /// Failed to execute a database query
    QueryFailed,
    /// Failed to execute a database transaction
    TransactionFailed,
    /// Violated a database constraint
    ConstraintViolation,
    /// Invalid data was provided to the database
    InvalidData,
}

impl DatabaseSubcategory {
    /// The variant's name as text.
    pub open spec fn name_text(self) -> Seq<char> {
        match self {
            DatabaseSubcategory::ConnectionFailed => "ConnectionFailed"@,
            DatabaseSubcategory::QueryFailed => "QueryFailed"@,
            DatabaseSubcategory::TransactionFailed => "TransactionFailed"@,
            DatabaseSubcategory::ConstraintViolation => "ConstraintViolation"@,
            DatabaseSubcategory::InvalidData => "InvalidData"@,
        }
    }

    /// The variant's position in declaration order, starting at zero.
    pub open spec fn ordinal_value(self) -> nat {
        match self {
            DatabaseSubcategory::ConnectionFailed => 0,
            DatabaseSubcategory::QueryFailed => 1,
            DatabaseSubcategory::TransactionFailed => 2,
            DatabaseSubcategory::ConstraintViolation => 3,
            DatabaseSubcategory::InvalidData => 4,
        }
    }

    pub fn name(&self) -> (text: &'static str)
        ensures
            text@ == self.name_text(),
    {
        match self {
            DatabaseSubcategory::ConnectionFailed => "ConnectionFailed",
            DatabaseSubcategory::QueryFailed => "QueryFailed",
            DatabaseSubcategory::TransactionFailed => "TransactionFailed",
            DatabaseSubcategory::ConstraintViolation => "ConstraintViolation",
            DatabaseSubcategory::InvalidData => "InvalidData",
        }
    }

    pub fn ordinal(&self) -> (position: u32)
        ensures
            position == self.ordinal_value(),
            position < 5,
    {
        match self {
            DatabaseSubcategory::ConnectionFailed => 0,
            DatabaseSubcategory::QueryFailed => 1,
            DatabaseSubcategory::TransactionFailed => 2,
            DatabaseSubcategory::ConstraintViolation => 3,
            DatabaseSubcategory::InvalidData => 4,
        }
    }
}

/// Subcategories for migration-related errors
#[derive(Debug, Clone, Copy, PartialEq, Eq, Structural)]
pub enum MigrationSubcategory {
    /// Version conflict during migration
    VersionConflict,
    /// Error in the database schema
    SchemaError,
    /// Error in the data being migrated
    DataError,
    /// Failed to rollback a migration
    RollbackFailed,
}

impl MigrationSubcategory {
    /// The variant's name as text.
    pub open spec fn name_text(self) -> Seq<char> {
        match self {
            MigrationSubcategory::VersionConflict => "VersionConflict"@,
            MigrationSubcategory::SchemaError => "SchemaError"@,
            MigrationSubcategory::DataError => "DataError"@,
            MigrationSubcategory::RollbackFailed => "RollbackFailed"@,
        }
    }

    /// The variant's position in declaration order, starting at zero.
    pub open spec fn ordinal_value(self) -> nat {
        match self {
            MigrationSubcategory::VersionConflict => 0,
            MigrationSubcategory::SchemaError => 1,
            MigrationSubcategory::DataError => 2,
            MigrationSubcategory::RollbackFailed => 3,
        }
    }

    pub fn name(&self) -> (text: &'static str)
        ensures
            text@ == self.name_text(),
    {
        match self {
            MigrationSubcategory::VersionConflict => "VersionConflict",
            MigrationSubcategory::SchemaError => "SchemaError",
            MigrationSubcategory::DataError => "DataError",
            MigrationSubcategory::RollbackFailed => "RollbackFailed",
        }
    }

    pub fn ordinal(&self) -> (position: u32)
        ensures
            position == self.ordinal_value(),
            position < 4,
    {
        match self {
            MigrationSubcategory::VersionConflict => 0,
            MigrationSubcategory::SchemaError => 1,
            MigrationSubcategory::DataError => 2,
            MigrationSubcategory::RollbackFailed => 3,
        }
    }
}

/// Subcategories for I/O-related errors
#[derive(Debug, Clone, Copy, PartialEq, Eq, Structural)]
pub enum IoSubcategory {
    /// Failed to read from a file or stream
    ReadFailed,
    /// Failed to write to a file or stream
    WriteFailed,
    /// Permission denied for the operation
    PermissionDenied,
    /// The specified path was not found
    PathNotFound,
    /// The specified path already exists
    AlreadyExists,
}

impl IoSubcategory {
    /// The variant's name as text.
    pub open spec fn name_text(self) -> Seq<char> {
        match self {
            IoSubcategory::ReadFailed => "ReadFailed"@,
            IoSubcategory::WriteFailed => "WriteFailed"@,
            IoSubcategory::PermissionDenied => "PermissionDenied"@,
            IoSubcategory::PathNotFound => "PathNotFound"@,
            IoSubcategory::AlreadyExists => "AlreadyExists"@,
        }
    }

    /// The variant's position in declaration order, starting at zero.
    pub open spec fn ordinal_value(self) -> nat {
        match self {
            IoSubcategory::ReadFailed => 0,
            IoSubcategory::WriteFailed => 1,
            IoSubcategory::PermissionDenied => 2,
            IoSubcategory::PathNotFound => 3,
            IoSubcategory::AlreadyExists => 4,
        }
    }

    pub fn name(&self) -> (text: &'static str)
        ensures
            text@ == self.name_text(),
    {
        match self {
            IoSubcategory::ReadFailed => "ReadFailed",
            IoSubcategory::WriteFailed => "WriteFailed",
            IoSubcategory::PermissionDenied => "PermissionDenied",
            IoSubcategory::PathNotFound => "PathNotFound",
            IoSubcategory::AlreadyExists => "AlreadyExists",
        }
    }

    pub fn ordinal(&self) -> (position: u32)
        ensures
            position == self.ordinal_value(),
            position < 5,
    {
        match self {
            IoSubcategory::ReadFailed => 0,
            IoSubcategory::WriteFailed => 1,
            IoSubcategory::PermissionDenied => 2,
            IoSubcategory::PathNotFound => 3,
            IoSubcategory::AlreadyExists => 4,
        }
    }
}

/// Subcategories for configuration-related errors
#[derive(Debug, Clone, Copy, PartialEq, Eq, Structural)]
pub enum ConfigSubcategory {
    /// Failed to parse the configuration
    ParseError,
    /// Failed to validate the configuration
    ValidationError,
    /// Missing required configuration value
    MissingRequired,
    /// Invalid configuration format
    InvalidFormat,
}

impl ConfigSubcategory {
    /// The variant's name as text.
    pub open spec fn name_text(self) -> Seq<char> {
        match self {
            ConfigSubcategory::ParseError => "ParseError"@,
            ConfigSubcategory::ValidationError => "ValidationError"@,
            ConfigSubcategory::MissingRequired => "MissingRequired"@,
            ConfigSubcategory::InvalidFormat => "InvalidFormat"@,
        }
    }

    /// The variant's position in declaration order, starting at zero.
    pub open spec fn ordinal_value(self) -> nat {
        match self {
            ConfigSubcategory::ParseError => 0,
            ConfigSubcategory::ValidationError => 1,
            ConfigSubcategory::MissingRequired => 2,
            ConfigSubcategory::InvalidFormat => 3,
        }
    }

    pub fn name(&self) -> (text: &'static str)
        ensures
            text@ == self.name_text(),
    {
        match self {
            ConfigSubcategory::ParseError => "ParseError",
            ConfigSubcategory::ValidationError => "ValidationError",
            ConfigSubcategory::MissingRequired => "MissingRequired",
            ConfigSubcategory::InvalidFormat => "InvalidFormat",
        }
    }

    pub fn ordinal(&self) -> (position: u32)
        ensures
            position == self.ordinal_value(),
            position < 4,
    {
        match self {
            ConfigSubcategory::ParseError => 0,
            ConfigSubcategory::ValidationError => 1,
            ConfigSubcategory::MissingRequired => 2,
            ConfigSubcategory::InvalidFormat => 3,
        }
    }
}

/// Subcategories for icon generation-related errors
#[derive(Debug, Clone, Copy, PartialEq, Eq, Structural)]
pub enum IconGenerationSubcategory {
    /// Failed to generate an icon
    GenerationFailed,
    /// Failed to save an icon
    SaveFailed,
    /// Invalid icon format
    InvalidFormat,
    /// Invalid icon size
    InvalidSize,
}

impl IconGenerationSubcategory {
    /// The variant's name as text.
    pub open spec fn name_text(self) -> Seq<char> {
        match self {
            IconGenerationSubcategory::GenerationFailed => "GenerationFailed"@,
            IconGenerationSubcategory::SaveFailed => "SaveFailed"@,
            IconGenerationSubcategory::InvalidFormat => "InvalidFormat"@,
            IconGenerationSubcategory::InvalidSize => "InvalidSize"@,
        }
    }

    /// The variant's position in declaration order, starting at zero.
    pub open spec fn ordinal_value(self) -> nat {
        match self {
            IconGenerationSubcategory::GenerationFailed => 0,
            IconGenerationSubcategory::SaveFailed => 1,
            IconGenerationSubcategory::InvalidFormat => 2,
            IconGenerationSubcategory::InvalidSize => 3,
        }
    }

    pub fn name(&self) -> (text: &'static str)
        ensures
            text@ == self.name_text(),
    {
        match self {
            IconGenerationSubcategory::GenerationFailed => "GenerationFailed",
            IconGenerationSubcategory::SaveFailed => "SaveFailed",
            IconGenerationSubcategory::InvalidFormat => "InvalidFormat",
            IconGenerationSubcategory::InvalidSize => "InvalidSize",
        }
    }

    pub fn ordinal(&self) -> (position: u32)
        ensures
            position == self.ordinal_value(),
            position < 4,
    {
        match self {
            IconGenerationSubcategory::GenerationFailed => 0,
            IconGenerationSubcategory::SaveFailed => 1,
            IconGenerationSubcategory::InvalidFormat => 2,
            IconGenerationSubcategory::InvalidSize => 3,
        }
    }
}

/// Subcategories for image-related errors
#[derive(Debug, Clone, Copy, PartialEq, Eq, Structural)]
pub enum ImageSubcategory {
    /// Failed to process an image
    ProcessingFailed,
    /// Invalid image format
    InvalidFormat,
    /// Invalid image size
    InvalidSize,
    /// Failed to save an image
    SaveFailed,
}

impl ImageSubcategory {
    /// The variant's name as text.
    pub open spec fn name_text(self) -> Seq<char> {
        match self {
            ImageSubcategory::ProcessingFailed => "ProcessingFailed"@,
            ImageSubcategory::InvalidFormat => "InvalidFormat"@,
            ImageSubcategory::InvalidSize => "InvalidSize"@,
            ImageSubcategory::SaveFailed => "SaveFailed"@,
        }
    }

    /// The variant's position in declaration order, starting at zero.
    pub open spec fn ordinal_value(self) -> nat {
        match self {
            ImageSubcategory::ProcessingFailed => 0,
            ImageSubcategory::InvalidFormat => 1,
            ImageSubcategory::InvalidSize => 2,
            ImageSubcategory::SaveFailed => 3,
        }
    }

    pub fn name(&self) -> (text: &'static str)
        ensures
            text@ == self.name_text(),
    {
        match self {
            ImageSubcategory::ProcessingFailed => "ProcessingFailed",
            ImageSubcategory::InvalidFormat => "InvalidFormat",
            ImageSubcategory::InvalidSize => "InvalidSize",
            ImageSubcategory::SaveFailed => "SaveFailed",
        }
    }

    pub fn ordinal(&self) -> (position: u32)
        ensures
            position == self.ordinal_value(),
            position < 4,
    {
        match self {
            ImageSubcategory::ProcessingFailed => 0,
            ImageSubcategory::InvalidFormat => 1,
            ImageSubcategory::InvalidSize => 2,
            ImageSubcategory::SaveFailed => 3,
        }
    }
}

/// Subcategories for file not found errors
#[derive(Debug, Clone, Copy, PartialEq, Eq, Structural)]
pub enum FileNotFoundSubcategory {
    /// Resource not found
    ResourceNotFound,
    /// Configuration file not found
    ConfigNotFound,
    /// Asset not found
    AssetNotFound,
    /// Database file not found
    DatabaseNotFound,
}

impl FileNotFoundSubcategory {
    /// The variant's name as text.
    pub open spec fn name_text(self) -> Seq<char> {
        match self {
            FileNotFoundSubcategory::ResourceNotFound => "ResourceNotFound"@,
            FileNotFoundSubcategory::ConfigNotFound => "ConfigNotFound"@,
            FileNotFoundSubcategory::AssetNotFound => "AssetNotFound"@,
            FileNotFoundSubcategory::DatabaseNotFound => "DatabaseNotFound"@,
        }
    }

    /// The variant's position in declaration order, starting at zero.
    pub open spec fn ordinal_value(self) -> nat {
        match self {
            FileNotFoundSubcategory::ResourceNotFound => 0,
            FileNotFoundSubcategory::ConfigNotFound => 1,
            FileNotFoundSubcategory::AssetNotFound => 2,
            FileNotFoundSubcategory::DatabaseNotFound => 3,
        }
    }

    pub fn name(&self) -> (text: &'static str)
        ensures
            text@ == self.name_text(),
    {
        match self {
            FileNotFoundSubcategory::ResourceNotFound => "ResourceNotFound",
            FileNotFoundSubcategory::ConfigNotFound => "ConfigNotFound",
            FileNotFoundSubcategory::AssetNotFound => "AssetNotFound",
            FileNotFoundSubcategory::DatabaseNotFound => "DatabaseNotFound",
        }
    }

    pub fn ordinal(&self) -> (position: u32)
        ensures
            position == self.ordinal_value(),
            position < 4,
    {
        match self {
            FileNotFoundSubcategory::ResourceNotFound => 0,
            FileNotFoundSubcategory::ConfigNotFound => 1,
            FileNotFoundSubcategory::AssetNotFound => 2,
            FileNotFoundSubcategory::DatabaseNotFound => 3,
        }
    }
}

/// Subcategories for keyring-related errors
#[derive(Debug, Clone, Copy, PartialEq, Eq, Structural)]
pub enum KeyringSubcategory {
    /// Access denied to the keyring
    AccessDenied,
    /// Key not found in the keyring
    KeyNotFound,
    /// Keyring service unavailable
    KeyringUnavailable,
    /// Invalid key in the keyring
    InvalidKey,
}

impl KeyringSubcategory {
    /// The variant's name as text.
    pub open spec fn name_text(self) -> Seq<char> {
        match self {
            KeyringSubcategory::AccessDenied => "AccessDenied"@,
            KeyringSubcategory::KeyNotFound => "KeyNotFound"@,
            KeyringSubcategory::KeyringUnavailable => "KeyringUnavailable"@,
            KeyringSubcategory::InvalidKey => "InvalidKey"@,
        }
    }

    /// The variant's position in declaration order, starting at zero.
    pub open spec fn ordinal_value(self) -> nat {
        match self {
            KeyringSubcategory::AccessDenied => 0,
            KeyringSubcategory::KeyNotFound => 1,
            KeyringSubcategory::KeyringUnavailable => 2,
            KeyringSubcategory::InvalidKey => 3,
        }
    }

    pub fn name(&self) -> (text: &'static str)
        ensures
            text@ == self.name_text(),
    {
        match self {
            KeyringSubcategory::AccessDenied => "AccessDenied",
            KeyringSubcategory::KeyNotFound => "KeyNotFound",
            KeyringSubcategory::KeyringUnavailable => "KeyringUnavailable",
            KeyringSubcategory::InvalidKey => "InvalidKey",
        }
    }

    pub fn ordinal(&self) -> (position: u32)
        ensures
            position == self.ordinal_value(),
            position < 4,
    {
        match self {
            KeyringSubcategory::AccessDenied => 0,
            KeyringSubcategory::KeyNotFound => 1,
            KeyringSubcategory::KeyringUnavailable => 2,
            KeyringSubcategory::InvalidKey => 3,
        }
    }
}

/// Subcategories for key generation-related errors
#[derive(Debug, Clone, Copy, PartialEq, Eq, Structural)]
pub enum KeyGenerationSubcategory {
    /// Failed to generate a key
    GenerationFailed,
    /// Failed to store a key
    StorageFailed,
    /// Invalid key length
    InvalidLength,
}

impl KeyGenerationSubcategory {
    /// The variant's name as text.
    pub open spec fn name_text(self) -> Seq<char> {
        match self {
            KeyGenerationSubcategory::GenerationFailed => "GenerationFailed"@,
            KeyGenerationSubcategory::StorageFailed => "StorageFailed"@,
            KeyGenerationSubcategory::InvalidLength => "InvalidLength"@,
        }
    }

    /// The variant's position in declaration order, starting at zero.
    pub open spec fn ordinal_value(self) -> nat {
        match self {
            KeyGenerationSubcategory::GenerationFailed => 0,
            KeyGenerationSubcategory::StorageFailed => 1,
            KeyGenerationSubcategory::InvalidLength => 2,
        }
    }

    pub fn name(&self) -> (text: &'static str)
        ensures
            text@ == self.name_text(),
    {
        match self {
            KeyGenerationSubcategory::GenerationFailed => "GenerationFailed",
            KeyGenerationSubcategory::StorageFailed => "StorageFailed",
            KeyGenerationSubcategory::InvalidLength => "InvalidLength",
        }
    }

    pub fn ordinal(&self) -> (position: u32)
        ensures
            position == self.ordinal_value(),
            position < 3,
    {
        match self {
            KeyGenerationSubcategory::GenerationFailed => 0,
            KeyGenerationSubcategory::StorageFailed => 1,
            KeyGenerationSubcategory::InvalidLength => 2,
        }
    }
}

/// Subcategories for project-related errors
#[derive(Debug, Clone, Copy, PartialEq, Eq, Structural)]
pub enum ProjectSubcategory {
    /// Project not found
    NotFound,
    /// Invalid project name
    InvalidName,
    /// Invalid project path
    InvalidPath,
    /// Project already exists
    AlreadyExists,
}

impl ProjectSubcategory {
    /// The variant's name as text.
    pub open spec fn name_text(self) -> Seq<char> {
        match self {
            ProjectSubcategory::NotFound => "NotFound"@,
            ProjectSubcategory::InvalidName => "InvalidName"@,
            ProjectSubcategory::InvalidPath => "InvalidPath"@,
            ProjectSubcategory::AlreadyExists => "AlreadyExists"@,
        }
    }

    /// The variant's position in declaration order, starting at zero.
    pub open spec fn ordinal_value(self) -> nat {
        match self {
            ProjectSubcategory::NotFound => 0,
            ProjectSubcategory::InvalidName => 1,
            ProjectSubcategory::InvalidPath => 2,
            ProjectSubcategory::AlreadyExists => 3,
        }
    }

    pub fn name(&self) -> (text: &'static str)
        ensures
            text@ == self.name_text(),
    {
        match self {
            ProjectSubcategory::NotFound => "NotFound",
            ProjectSubcategory::InvalidName => "InvalidName",
            ProjectSubcategory::InvalidPath => "InvalidPath",
            ProjectSubcategory::AlreadyExists => "AlreadyExists",
        }
    }

    pub fn ordinal(&self) -> (position: u32)
        ensures
            position == self.ordinal_value(),
            position < 4,
    {
        match self {
            ProjectSubcategory::NotFound => 0,
            ProjectSubcategory::InvalidName => 1,
            ProjectSubcategory::InvalidPath => 2,
            ProjectSubcategory::AlreadyExists => 3,
        }
    }
}

/// Subcategories for icon-related errors
#[derive(Debug, Clone, Copy, PartialEq, Eq, Structural)]
pub enum IconSubcategory {
    /// Failed to generate an icon
    GenerationFailed,
    /// Failed to save an icon
    SaveFailed,
    /// Invalid icon format
    InvalidFormat,
    /// Invalid icon size
    InvalidSize,
}

impl IconSubcategory {
    /// The variant's name as text.
    pub open spec fn name_text(self) -> Seq<char> {
        match self {
            IconSubcategory::GenerationFailed => "GenerationFailed"@,
            IconSubcategory::SaveFailed => "SaveFailed"@,
            IconSubcategory::InvalidFormat => "InvalidFormat"@,
            IconSubcategory::InvalidSize => "InvalidSize"@,
        }
    }

    /// The variant's position in declaration order, starting at zero.
    pub open spec fn ordinal_value(self) -> nat {
        match self {
            IconSubcategory::GenerationFailed => 0,
            IconSubcategory::SaveFailed => 1,
            IconSubcategory::InvalidFormat => 2,
            IconSubcategory::InvalidSize => 3,
        }
    }

    pub fn name(&self) -> (text: &'static str)
        ensures
            text@ == self.name_text(),
    {
        match self {
            IconSubcategory::GenerationFailed => "GenerationFailed",
            IconSubcategory::SaveFailed => "SaveFailed",
            IconSubcategory::InvalidFormat => "InvalidFormat",
            IconSubcategory::InvalidSize => "InvalidSize",
        }
    }

    pub fn ordinal(&self) -> (position: u32)
        ensures
            position == self.ordinal_value(),
            position < 4,
    {
        match self {
            IconSubcategory::GenerationFailed => 0,
            IconSubcategory::SaveFailed => 1,
            IconSubcategory::InvalidFormat => 2,
            IconSubcategory::InvalidSize => 3,
        }
    }
}

/// Subcategories for connection-related errors
#[derive(Debug, Clone, Copy, PartialEq, Eq, Structural)]
pub enum ConnectionSubcategory {
    /// Failed to establish a connection
    ConnectionFailed,
    /// Connection timed out
    Timeout,
    /// Connection was refused
    Refused,
    /// Protocol error during connection
    ProtocolError,
}

impl ConnectionSubcategory {
    /// The variant's name as text.
    pub open spec fn name_text(self) -> Seq<char> {
        match self {
            ConnectionSubcategory::ConnectionFailed => "ConnectionFailed"@,
            ConnectionSubcategory::Timeout => "Timeout"@,
            ConnectionSubcategory::Refused => "Refused"@,
            ConnectionSubcategory::ProtocolError => "ProtocolError"@,
        }
    }

    /// The variant's position in declaration order, starting at zero.
    pub open spec fn ordinal_value(self) -> nat {
        match self {
            ConnectionSubcategory::ConnectionFailed => 0,
            ConnectionSubcategory::Timeout => 1,
            ConnectionSubcategory::Refused => 2,
            ConnectionSubcategory::ProtocolError => 3,
        }
    }

    pub fn name(&self) -> (text: &'static str)
        ensures
            text@ == self.name_text(),
    {
        match self {
            ConnectionSubcategory::ConnectionFailed => "ConnectionFailed",
            ConnectionSubcategory::Timeout => "Timeout",
            ConnectionSubcategory::Refused => "Refused",
            ConnectionSubcategory::ProtocolError => "ProtocolError",
        }
    }

    pub fn ordinal(&self) -> (position: u32)
        ensures
            position == self.ordinal_value(),
            position < 4,
    {
        match self {
            ConnectionSubcategory::ConnectionFailed => 0,
            ConnectionSubcategory::Timeout => 1,
            ConnectionSubcategory::Refused => 2,
            ConnectionSubcategory::ProtocolError => 3,
        }
    }
}

/// Subcategories for validation-related errors
#[derive(Debug, Clone, Copy, PartialEq, Eq, Structural)]
pub enum ValidationSubcategory {
    /// Invalid format for a field
    InvalidFormat,
    /// Missing required field
    MissingRequired,
    /// Invalid range for a field
    InvalidRange,
    /// Invalid type for a field
    InvalidType,
}

impl ValidationSubcategory {
    /// The variant's name as text.
    pub open spec fn name_text(self) -> Seq<char> {
        match self {
            ValidationSubcategory::InvalidFormat => "InvalidFormat"@,
            ValidationSubcategory::MissingRequired => "MissingRequired"@,
            ValidationSubcategory::InvalidRange => "InvalidRange"@,
            ValidationSubcategory::InvalidType => "InvalidType"@,
        }
    }

    /// The variant's position in declaration order, starting at zero.
    pub open spec fn ordinal_value(self) -> nat {
        match self {
            ValidationSubcategory::InvalidFormat => 0,
            ValidationSubcategory::MissingRequired => 1,
            ValidationSubcategory::InvalidRange => 2,
            ValidationSubcategory::InvalidType => 3,
        }
    }

    pub fn name(&self) -> (text: &'static str)
        ensures
            text@ == self.name_text(),
    {
        match self {
            ValidationSubcategory::InvalidFormat => "InvalidFormat",
            ValidationSubcategory::MissingRequired => "MissingRequired",
            ValidationSubcategory::InvalidRange => "InvalidRange",
            ValidationSubcategory::InvalidType => "InvalidType",
        }
    }

    pub fn ordinal(&self) -> (position: u32)
        ensures
            position == self.ordinal_value(),
            position < 4,
    {
        match self {
            ValidationSubcategory::InvalidFormat => 0,
            ValidationSubcategory::MissingRequired => 1,
            ValidationSubcategory::InvalidRange => 2,
            ValidationSubcategory::InvalidType => 3,
        }
    }
}

/// Subcategories for authentication-related errors
#[derive(Debug, Clone, Copy, PartialEq, Eq, Structural)]
pub enum AuthSubcategory {
    /// Invalid credentials provided
    InvalidCredentials,
    /// Authentication token has expired
    TokenExpired,
    /// Account has been locked
    AccountLocked,
    /// Permission denied for the operation
    PermissionDenied,
}

impl AuthSubcategory {
    /// The variant's name as text.
    pub open spec fn name_text(self) -> Seq<char> {
        match self {
            AuthSubcategory::InvalidCredentials => "InvalidCredentials"@,
            AuthSubcategory::TokenExpired => "TokenExpired"@,
            AuthSubcategory::AccountLocked => "AccountLocked"@,
            AuthSubcategory::PermissionDenied => "PermissionDenied"@,
        }
    }

    /// The variant's position in declaration order, starting at zero.
    pub open spec fn ordinal_value(self) -> nat {
        match self {
            AuthSubcategory::InvalidCredentials => 0,
            AuthSubcategory::TokenExpired => 1,
            AuthSubcategory::AccountLocked => 2,
            AuthSubcategory::PermissionDenied => 3,
        }
    }

    pub fn name(&self) -> (text: &'static str)
        ensures
            text@ == self.name_text(),
    {
        match self {
            AuthSubcategory::InvalidCredentials => "InvalidCredentials",
            AuthSubcategory::TokenExpired => "TokenExpired",
            AuthSubcategory::AccountLocked => "AccountLocked",
            AuthSubcategory::PermissionDenied => "PermissionDenied",
        }
    }

    pub fn ordinal(&self) -> (position: u32)
        ensures
            position == self.ordinal_value(),
            position < 4,
    {
        match self {
            AuthSubcategory::InvalidCredentials => 0,
            AuthSubcategory::TokenExpired => 1,
            AuthSubcategory::AccountLocked => 2,
            AuthSubcategory::PermissionDenied => 3,
        }
    }
}

/// Subcategories for unknown errors
#[derive(Debug, Clone, Copy, PartialEq, Eq, Structural)]
pub enum UnknownSubcategory {
    /// Unexpected error occurred
    Unexpected,
    /// System error occurred
    System,
    /// External error occurred
    External,
}

impl UnknownSubcategory {
    /// The variant's name as text.
    pub open spec fn name_text(self) -> Seq<char> {
        match self {
            UnknownSubcategory::Unexpected => "Unexpected"@,
            UnknownSubcategory::System => "System"@,
            UnknownSubcategory::External => "External"@,
        }
    }

    /// The variant's position in declaration order, starting at zero.
    pub open spec fn ordinal_value(self) -> nat {
        match self {
            UnknownSubcategory::Unexpected => 0,
            UnknownSubcategory::System => 1,
            UnknownSubcategory::External => 2,
        }
    }

    pub fn name(&self) -> (text: &'static str)
        ensures
            text@ == self.name_text(),
    {
        match self {
            UnknownSubcategory::Unexpected => "Unexpected",
            UnknownSubcategory::System => "System",
            UnknownSubcategory::External => "External",
        }
    }

    pub fn ordinal(&self) -> (position: u32)
        ensures
            position == self.ordinal_value(),
            position < 3,
    {
        match self {
            UnknownSubcategory::Unexpected => 0,
            UnknownSubcategory::System => 1,
            UnknownSubcategory::External => 2,
        }
    }
}

/// Subcategories for encryption-related errors
#[derive(Debug, Clone, Copy, PartialEq, Eq, Structural)]
pub enum EncryptionSubcategory {
    /// Failed to decrypt data
    DecryptionFailed,
    /// Failed to encrypt data
    EncryptionFailed,
    /// Invalid encryption key
    InvalidKey,
    /// Invalid encryption format
    InvalidFormat,
    /// Encryption key not initialized
    KeyNotInitialized,
    /// Failed to serialize data
    SerializationFailed,
    /// Failed to deserialize data
    DeserializationFailed,
    /// Failed to decode base64 data
    Base64DecodeFailed,
    /// Failed to decode UTF-8 data
    Utf8DecodeFailed,
    /// Failed to initialize encryption key
    KeyInitialization,
}

impl EncryptionSubcategory {
    /// The variant's name as text.
    pub open spec fn name_text(self) -> Seq<char> {
        match self {
            EncryptionSubcategory::DecryptionFailed => "DecryptionFailed"@,
            EncryptionSubcategory::EncryptionFailed => "EncryptionFailed"@,
            EncryptionSubcategory::InvalidKey => "InvalidKey"@,
            EncryptionSubcategory::InvalidFormat => "InvalidFormat"@,
            EncryptionSubcategory::KeyNotInitialized => "KeyNotInitialized"@,
            EncryptionSubcategory::SerializationFailed => "SerializationFailed"@,
            EncryptionSubcategory::DeserializationFailed => "DeserializationFailed"@,
            EncryptionSubcategory::Base64DecodeFailed => "Base64DecodeFailed"@,
            EncryptionSubcategory::Utf8DecodeFailed => "Utf8DecodeFailed"@,
            EncryptionSubcategory::KeyInitialization => "KeyInitialization"@,
        }
    }

    /// The variant's position in declaration order, starting at zero.
    pub open spec fn ordinal_value(self) -> nat {
        match self {
            EncryptionSubcategory::DecryptionFailed => 0,
            EncryptionSubcategory::EncryptionFailed => 1,
            EncryptionSubcategory::InvalidKey => 2,
            EncryptionSubcategory::InvalidFormat => 3,
            EncryptionSubcategory::KeyNotInitialized => 4,
            EncryptionSubcategory::SerializationFailed => 5,
            EncryptionSubcategory::DeserializationFailed => 6,
            EncryptionSubcategory::Base64DecodeFailed => 7,
            EncryptionSubcategory::Utf8DecodeFailed => 8,
            EncryptionSubcategory::KeyInitialization => 9,
        }
    }

    pub fn name(&self) -> (text: &'static str)
        ensures
            text@ == self.name_text(),
    {
        match self {
            EncryptionSubcategory::DecryptionFailed => "DecryptionFailed",
            EncryptionSubcategory::EncryptionFailed => "EncryptionFailed",
            EncryptionSubcategory::InvalidKey => "InvalidKey",
            EncryptionSubcategory::InvalidFormat => "InvalidFormat",
            EncryptionSubcategory::KeyNotInitialized => "KeyNotInitialized",
            EncryptionSubcategory::SerializationFailed => "SerializationFailed",
            EncryptionSubcategory::DeserializationFailed => "DeserializationFailed",
            EncryptionSubcategory::Base64DecodeFailed => "Base64DecodeFailed",
            EncryptionSubcategory::Utf8DecodeFailed => "Utf8DecodeFailed",
            EncryptionSubcategory::KeyInitialization => "KeyInitialization",
        }
    }

    pub fn ordinal(&self) -> (position: u32)
        ensures
            position == self.ordinal_value(),
            position < 10,
    {
        match self {
            EncryptionSubcategory::DecryptionFailed => 0,
            EncryptionSubcategory::EncryptionFailed => 1,
            EncryptionSubcategory::InvalidKey => 2,
            EncryptionSubcategory::InvalidFormat => 3,
            EncryptionSubcategory::KeyNotInitialized => 4,
            EncryptionSubcategory::SerializationFailed => 5,
            EncryptionSubcategory::DeserializationFailed => 6,
            EncryptionSubcategory::Base64DecodeFailed => 7,
            EncryptionSubcategory::Utf8DecodeFailed => 8,
            EncryptionSubcategory::KeyInitialization => 9,
        }
    }
}

/// Subcategories for key management-related errors
#[derive(Debug, Clone, Copy, PartialEq, Eq, Structural)]
pub enum KeyManagementSubcategory {
    /// Key management not initialized
    KeyNotInitialized,
    /// Key not found
    KeyNotFound,
    /// Failed to generate a key
    KeyGenerationFailed,
    /// Failed to store a key
    KeyStorageFailed,
    /// Failed to retrieve a key
    KeyRetrievalFailed,
}

impl KeyManagementSubcategory {
    /// The variant's name as text.
    pub open spec fn name_text(self) -> Seq<char> {
        match self {
            KeyManagementSubcategory::KeyNotInitialized => "KeyNotInitialized"@,
            KeyManagementSubcategory::KeyNotFound => "KeyNotFound"@,
            KeyManagementSubcategory::KeyGenerationFailed => "KeyGenerationFailed"@,
            KeyManagementSubcategory::KeyStorageFailed => "KeyStorageFailed"@,
            KeyManagementSubcategory::KeyRetrievalFailed => "KeyRetrievalFailed"@,
        }
    }

    /// The variant's position in declaration order, starting at zero.
    pub open spec fn ordinal_value(self) -> nat {
        match self {
            KeyManagementSubcategory::KeyNotInitialized => 0,
            KeyManagementSubcategory::KeyNotFound => 1,
            KeyManagementSubcategory::KeyGenerationFailed => 2,
            KeyManagementSubcategory::KeyStorageFailed => 3,
            KeyManagementSubcategory::KeyRetrievalFailed => 4,
        }
    }

    pub fn name(&self) -> (text: &'static str)
        ensures
            text@ == self.name_text(),
    {
        match self {
            KeyManagementSubcategory::KeyNotInitialized => "KeyNotInitialized",
            KeyManagementSubcategory::KeyNotFound => "KeyNotFound",
            KeyManagementSubcategory::KeyGenerationFailed => "KeyGenerationFailed",
            KeyManagementSubcategory::KeyStorageFailed => "KeyStorageFailed",
            KeyManagementSubcategory::KeyRetrievalFailed => "KeyRetrievalFailed",
        }
    }

    pub fn ordinal(&self) -> (position: u32)
        ensures
            position == self.ordinal_value(),
            position < 5,
    {
        match self {
            KeyManagementSubcategory::KeyNotInitialized => 0,
            KeyManagementSubcategory::KeyNotFound => 1,
            KeyManagementSubcategory::KeyGenerationFailed => 2,
            KeyManagementSubcategory::KeyStorageFailed => 3,
            KeyManagementSubcategory::KeyRetrievalFailed => 4,
        }
    }
}

} // verus!
