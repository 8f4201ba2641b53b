//! The application's error values.
//!
//! An [`ErrorCategory`] is a complete error record: the category it belongs
//! to, a human-readable message, an optional subcategory, a numeric code and
//! a severity. The submodules hold the lighter [`types::AppError`], which
//! tags a message with a category and subcategory pair.

use vstd::prelude::*;
use vstd::string::*;
use crate::error_subcategories::{
    AuthSubcategory, ConfigSubcategory, ConnectionSubcategory, DatabaseSubcategory,
    EncryptionSubcategory, FileNotFoundSubcategory, IconGenerationSubcategory, IconSubcategory,
    ImageSubcategory, IoSubcategory, KeyGenerationSubcategory, KeyManagementSubcategory,
    KeyringSubcategory, MigrationSubcategory, ProjectSubcategory, UnknownSubcategory,
    ValidationSubcategory,
};

pub mod categories;
pub mod types;
pub mod constructors;
pub mod conversions;

verus! {

/// Severity levels for errors
#[derive(Debug, Clone, Copy, PartialEq, Eq, Structural)]
pub enum ErrorSeverity {
    Info,
    Warning,
    Error,
    Critical,
}

/// Error categories for the application
#[derive(Debug)]
#[allow(inconsistent_fields)]
pub enum ErrorCategory {
    Database { message: String, subcategory: Option<DatabaseSubcategory>, code: u32, severity: ErrorSeverity },
    Migration { message: String, subcategory: Option<MigrationSubcategory>, code: u32, severity: ErrorSeverity },
    Io { message: String, subcategory: Option<IoSubcategory>, code: u32, severity: ErrorSeverity },
    Config { message: String, subcategory: Option<ConfigSubcategory>, code: u32, severity: ErrorSeverity },
    IconGeneration { message: String, subcategory: Option<IconGenerationSubcategory>, code: u32, severity: ErrorSeverity },
    Image { message: String, subcategory: Option<ImageSubcategory>, code: u32, severity: ErrorSeverity },
    FileNotFound { message: String, subcategory: Option<FileNotFoundSubcategory>, code: u32, severity: ErrorSeverity },
    Keyring { message: String, subcategory: Option<KeyringSubcategory>, code: u32, severity: ErrorSeverity },
    KeyGeneration { message: String, subcategory: Option<KeyGenerationSubcategory>, code: u32, severity: ErrorSeverity },
    Project { message: String, subcategory: Option<ProjectSubcategory>, code: u32, severity: ErrorSeverity },
    Icon { message: String, subcategory: Option<IconSubcategory>, code: u32, severity: ErrorSeverity },
    Connection { message: String, subcategory: Option<ConnectionSubcategory>, code: u32, severity: ErrorSeverity },
    Validation { message: String, subcategory: Option<ValidationSubcategory>, code: u32, severity: ErrorSeverity },
    Auth { message: String, subcategory: Option<AuthSubcategory>, code: u32, severity: ErrorSeverity },
    Unknown { message: String, subcategory: Option<UnknownSubcategory>, code: u32, severity: ErrorSeverity },
    Encryption { message: String, subcategory: Option<EncryptionSubcategory>, code: u32, severity: ErrorSeverity },
    KeyManagement { message: String, subcategory: Option<KeyManagementSubcategory>, code: u32, severity: ErrorSeverity },
    System { message: String, subcategory: Option<UnknownSubcategory>, code: u32, severity: ErrorSeverity },
}

/// Main error type for the application
pub type AppError = ErrorCategory;

impl ErrorCategory {
    /// The category's upper-case name.
    pub open spec fn category_text(self) -> Seq<char> {
        match self {
            ErrorCategory::Database { .. } => "DATABASE"@,
            ErrorCategory::Migration { .. } => "MIGRATION"@,
            ErrorCategory::Io { .. } => "IO"@,
            ErrorCategory::Config { .. } => "CONFIG"@,
            ErrorCategory::IconGeneration { .. } => "ICON_GENERATION"@,
            ErrorCategory::Image { .. } => "IMAGE"@,
            ErrorCategory::FileNotFound { .. } => "FILE_NOT_FOUND"@,
            ErrorCategory::Keyring { .. } => "KEYRING"@,
            ErrorCategory::KeyGeneration { .. } => "KEY_GENERATION"@,
            ErrorCategory::Project { .. } => "PROJECT"@,
            ErrorCategory::Icon { .. } => "ICON"@,
            ErrorCategory::Connection { .. } => "CONNECTION"@,
            ErrorCategory::Validation { .. } => "VALIDATION"@,
            ErrorCategory::Auth { .. } => "AUTH"@,
            ErrorCategory::Unknown { .. } => "UNKNOWN"@,
            ErrorCategory::Encryption { .. } => "ENCRYPTION"@,
            ErrorCategory::KeyManagement { .. } => "KEY_MANAGEMENT"@,
            ErrorCategory::System { .. } => "SYSTEM"@,
        }
    }

    /// The text that introduces the message when the error is displayed.
    pub open spec fn prefix_text(self) -> Seq<char> {
        match self {
            ErrorCategory::Database { .. } => "Database error: "@,
            ErrorCategory::Migration { .. } => "Migration error: "@,
            ErrorCategory::Io { .. } => "IO error: "@,
            ErrorCategory::Config { .. } => "Config error: "@,
            ErrorCategory::IconGeneration { .. } => "Icon generation error: "@,
            ErrorCategory::Image { .. } => "Image error: "@,
            ErrorCategory::FileNotFound { .. } => "File not found: "@,
            ErrorCategory::Keyring { .. } => "Keyring error: "@,
            ErrorCategory::KeyGeneration { .. } => "Key generation error: "@,
            ErrorCategory::Project { .. } => "Project error: "@,
            ErrorCategory::Icon { .. } => "Icon error: "@,
            ErrorCategory::Connection { .. } => "Connection error: "@,
            ErrorCategory::Validation { .. } => "Validation error: "@,
            ErrorCategory::Auth { .. } => "Auth error: "@,
            ErrorCategory::Unknown { .. } => "Unknown error: "@,
            ErrorCategory::Encryption { .. } => "Encryption error: "@,
            ErrorCategory::KeyManagement { .. } => "Key management error: "@,
            ErrorCategory::System { .. } => "System error: "@,
        }
    }

    /// The message carried by the error.
    pub open spec fn message_text(self) -> Seq<char> {
        match self {
            ErrorCategory::Database { message, .. } => message@,
            ErrorCategory::Migration { message, .. } => message@,
            ErrorCategory::Io { message, .. } => message@,
            ErrorCategory::Config { message, .. } => message@,
            ErrorCategory::IconGeneration { message, .. } => message@,
            ErrorCategory::Image { message, .. } => message@,
            ErrorCategory::FileNotFound { message, .. } => message@,
            ErrorCategory::Keyring { message, .. } => message@,
            ErrorCategory::KeyGeneration { message, .. } => message@,
            ErrorCategory::Project { message, .. } => message@,
            ErrorCategory::Icon { message, .. } => message@,
            ErrorCategory::Connection { message, .. } => message@,
            ErrorCategory::Validation { message, .. } => message@,
            ErrorCategory::Auth { message, .. } => message@,
            ErrorCategory::Unknown { message, .. } => message@,
            ErrorCategory::Encryption { message, .. } => message@,
            ErrorCategory::KeyManagement { message, .. } => message@,
            ErrorCategory::System { message, .. } => message@,
        }
    }

    /// The numeric code carried by the error.
    pub open spec fn code_value(self) -> u32 {
        match self {
            ErrorCategory::Database { code, .. } => code,
            ErrorCategory::Migration { code, .. } => code,
            ErrorCategory::Io { code, .. } => code,
            ErrorCategory::Config { code, .. } => code,
            ErrorCategory::IconGeneration { code, .. } => code,
            ErrorCategory::Image { code, .. } => code,
            ErrorCategory::FileNotFound { code, .. } => code,
            ErrorCategory::Keyring { code, .. } => code,
            ErrorCategory::KeyGeneration { code, .. } => code,
            ErrorCategory::Project { code, .. } => code,
            ErrorCategory::Icon { code, .. } => code,
            ErrorCategory::Connection { code, .. } => code,
            ErrorCategory::Validation { code, .. } => code,
            ErrorCategory::Auth { code, .. } => code,
            ErrorCategory::Unknown { code, .. } => code,
            ErrorCategory::Encryption { code, .. } => code,
            ErrorCategory::KeyManagement { code, .. } => code,
            ErrorCategory::System { code, .. } => code,
        }
    }

    /// The severity carried by the error.
    pub open spec fn severity_value(self) -> ErrorSeverity {
        match self {
            ErrorCategory::Database { severity, .. } => severity,
            ErrorCategory::Migration { severity, .. } => severity,
            ErrorCategory::Io { severity, .. } => severity,
            ErrorCategory::Config { severity, .. } => severity,
            ErrorCategory::IconGeneration { severity, .. } => severity,
            ErrorCategory::Image { severity, .. } => severity,
            ErrorCategory::FileNotFound { severity, .. } => severity,
            ErrorCategory::Keyring { severity, .. } => severity,
            ErrorCategory::KeyGeneration { severity, .. } => severity,
            ErrorCategory::Project { severity, .. } => severity,
            ErrorCategory::Icon { severity, .. } => severity,
            ErrorCategory::Connection { severity, .. } => severity,
            ErrorCategory::Validation { severity, .. } => severity,
            ErrorCategory::Auth { severity, .. } => severity,
            ErrorCategory::Unknown { severity, .. } => severity,
            ErrorCategory::Encryption { severity, .. } => severity,
            ErrorCategory::KeyManagement { severity, .. } => severity,
            ErrorCategory::System { severity, .. } => severity,
        }
    }

    /// The subcategory's name, where the error has a subcategory.
    pub open spec fn subcategory_text(self) -> Option<Seq<char>> {
        match self {
            ErrorCategory::Database { subcategory, .. } => match subcategory {
                Some(s) => Some(s.name_text()),
                None => None,
            },
            ErrorCategory::Migration { subcategory, .. } => match subcategory {
                Some(s) => Some(s.name_text()),
                None => None,
            },
            ErrorCategory::Io { subcategory, .. } => match subcategory {
                Some(s) => Some(s.name_text()),
                None => None,
            },
            ErrorCategory::Config { subcategory, .. } => match subcategory {
                Some(s) => Some(s.name_text()),
                None => None,
            },
            ErrorCategory::IconGeneration { subcategory, .. } => match subcategory {
                Some(s) => Some(s.name_text()),
                None => None,
            },
            ErrorCategory::Image { subcategory, .. } => match subcategory {
                Some(s) => Some(s.name_text()),
                None => None,
            },
            ErrorCategory::FileNotFound { subcategory, .. } => match subcategory {
                Some(s) => Some(s.name_text()),
                None => None,
            },
            ErrorCategory::Keyring { subcategory, .. } => match subcategory {
                Some(s) => Some(s.name_text()),
                None => None,
            },
            ErrorCategory::KeyGeneration { subcategory, .. } => match subcategory {
                Some(s) => Some(s.name_text()),
                None => None,
            },
            ErrorCategory::Project { subcategory, .. } => match subcategory {
                Some(s) => Some(s.name_text()),
                None => None,
            },
            ErrorCategory::Icon { subcategory, .. } => match subcategory {
                Some(s) => Some(s.name_text()),
                None => None,
            },
            ErrorCategory::Connection { subcategory, .. } => match subcategory {
                Some(s) => Some(s.name_text()),
                None => None,
            },
            ErrorCategory::Validation { subcategory, .. } => match subcategory {
                Some(s) => Some(s.name_text()),
                None => None,
            },
            ErrorCategory::Auth { subcategory, .. } => match subcategory {
                Some(s) => Some(s.name_text()),
                None => None,
            },
            ErrorCategory::Unknown { subcategory, .. } => match subcategory {
                Some(s) => Some(s.name_text()),
                None => None,
            },
            ErrorCategory::Encryption { subcategory, .. } => match subcategory {
                Some(s) => Some(s.name_text()),
                None => None,
            },
            ErrorCategory::KeyManagement { subcategory, .. } => match subcategory {
                Some(s) => Some(s.name_text()),
                None => None,
            },
            ErrorCategory::System { subcategory, .. } => match subcategory {
                Some(s) => Some(s.name_text()),
                None => None,
            },
        }
    }

    /// The displayed form of the error: the category's prefix followed by the message.
    pub open spec fn display_text(self) -> Seq<char> {
        self.prefix_text() + self.message_text()
    }

    pub fn category_name(&self) -> (name: &'static str)
        ensures
            name@ == self.category_text(),
    {
        match self {
            ErrorCategory::Database { .. } => "DATABASE",
            ErrorCategory::Migration { .. } => "MIGRATION",
            ErrorCategory::Io { .. } => "IO",
            ErrorCategory::Config { .. } => "CONFIG",
            ErrorCategory::IconGeneration { .. } => "ICON_GENERATION",
            ErrorCategory::Image { .. } => "IMAGE",
            ErrorCategory::FileNotFound { .. } => "FILE_NOT_FOUND",
            ErrorCategory::Keyring { .. } => "KEYRING",
            ErrorCategory::KeyGeneration { .. } => "KEY_GENERATION",
            ErrorCategory::Project { .. } => "PROJECT",
            ErrorCategory::Icon { .. } => "ICON",
            ErrorCategory::Connection { .. } => "CONNECTION",
            ErrorCategory::Validation { .. } => "VALIDATION",
            ErrorCategory::Auth { .. } => "AUTH",
            ErrorCategory::Unknown { .. } => "UNKNOWN",
            ErrorCategory::Encryption { .. } => "ENCRYPTION",
            ErrorCategory::KeyManagement { .. } => "KEY_MANAGEMENT",
            ErrorCategory::System { .. } => "SYSTEM",
        }
    }

    pub fn get_code(&self) -> (code: u32)
        ensures
            code == self.code_value(),
    {
        match self {
            ErrorCategory::Database { code, .. } => *code,
            ErrorCategory::Migration { code, .. } => *code,
            ErrorCategory::Io { code, .. } => *code,
            ErrorCategory::Config { code, .. } => *code,
            ErrorCategory::IconGeneration { code, .. } => *code,
            ErrorCategory::Image { code, .. } => *code,
            ErrorCategory::FileNotFound { code, .. } => *code,
            ErrorCategory::Keyring { code, .. } => *code,
            ErrorCategory::KeyGeneration { code, .. } => *code,
            ErrorCategory::Project { code, .. } => *code,
            ErrorCategory::Icon { code, .. } => *code,
            ErrorCategory::Connection { code, .. } => *code,
            ErrorCategory::Validation { code, .. } => *code,
            ErrorCategory::Auth { code, .. } => *code,
            ErrorCategory::Unknown { code, .. } => *code,
            ErrorCategory::Encryption { code, .. } => *code,
            ErrorCategory::KeyManagement { code, .. } => *code,
            ErrorCategory::System { code, .. } => *code,
        }
    }

    pub fn get_severity(&self) -> (severity: ErrorSeverity)
        ensures
            severity == self.severity_value(),
    {
        match self {
            ErrorCategory::Database { severity, .. } => *severity,
            ErrorCategory::Migration { severity, .. } => *severity,
            ErrorCategory::Io { severity, .. } => *severity,
            ErrorCategory::Config { severity, .. } => *severity,
            ErrorCategory::IconGeneration { severity, .. } => *severity,
            ErrorCategory::Image { severity, .. } => *severity,
            ErrorCategory::FileNotFound { severity, .. } => *severity,
            ErrorCategory::Keyring { severity, .. } => *severity,
            ErrorCategory::KeyGeneration { severity, .. } => *severity,
            ErrorCategory::Project { severity, .. } => *severity,
            ErrorCategory::Icon { severity, .. } => *severity,
            ErrorCategory::Connection { severity, .. } => *severity,
            ErrorCategory::Validation { severity, .. } => *severity,
            ErrorCategory::Auth { severity, .. } => *severity,
            ErrorCategory::Unknown { severity, .. } => *severity,
            ErrorCategory::Encryption { severity, .. } => *severity,
            ErrorCategory::KeyManagement { severity, .. } => *severity,
            ErrorCategory::System { severity, .. } => *severity,
        }
    }

    pub fn get_subcategory(&self) -> (name: Option<String>)
        ensures
            name is Some <==> self.subcategory_text() is Some,
            name matches Some(text) ==> text@ == self.subcategory_text()->0,
    {
        match self {
            ErrorCategory::Database { subcategory, .. } => match subcategory {
                Some(s) => Some(s.name().to_owned()),
                None => None,
            },
            ErrorCategory::Migration { subcategory, .. } => match subcategory {
                Some(s) => Some(s.name().to_owned()),
                None => None,
            },
            ErrorCategory::Io { subcategory, .. } => match subcategory {
                Some(s) => Some(s.name().to_owned()),
                None => None,
            },
            ErrorCategory::Config { subcategory, .. } => match subcategory {
                Some(s) => Some(s.name().to_owned()),
                None => None,
            },
            ErrorCategory::IconGeneration { subcategory, .. } => match subcategory {
                Some(s) => Some(s.name().to_owned()),
                None => None,
            },
            ErrorCategory::Image { subcategory, .. } => match subcategory {
                Some(s) => Some(s.name().to_owned()),
                None => None,
            },
            ErrorCategory::FileNotFound { subcategory, .. } => match subcategory {
                Some(s) => Some(s.name().to_owned()),
                None => None,
            },
            ErrorCategory::Keyring { subcategory, .. } => match subcategory {
                Some(s) => Some(s.name().to_owned()),
                None => None,
            },
            ErrorCategory::KeyGeneration { subcategory, .. } => match subcategory {
                Some(s) => Some(s.name().to_owned()),
                None => None,
            },
            ErrorCategory::Project { subcategory, .. } => match subcategory {
                Some(s) => Some(s.name().to_owned()),
                None => None,
            },
            ErrorCategory::Icon { subcategory, .. } => match subcategory {
                Some(s) => Some(s.name().to_owned()),
                None => None,
            },
            ErrorCategory::Connection { subcategory, .. } => match subcategory {
                Some(s) => Some(s.name().to_owned()),
                None => None,
            },
            ErrorCategory::Validation { subcategory, .. } => match subcategory {
                Some(s) => Some(s.name().to_owned()),
                None => None,
            },
            ErrorCategory::Auth { subcategory, .. } => match subcategory {
                Some(s) => Some(s.name().to_owned()),
                None => None,
            },
            ErrorCategory::Unknown { subcategory, .. } => match subcategory {
                Some(s) => Some(s.name().to_owned()),
                None => None,
            },
            ErrorCategory::Encryption { subcategory, .. } => match subcategory {
                Some(s) => Some(s.name().to_owned()),
                None => None,
            },
            ErrorCategory::KeyManagement { subcategory, .. } => match subcategory {
                Some(s) => Some(s.name().to_owned()),
                None => None,
            },
            ErrorCategory::System { subcategory, .. } => match subcategory {
                Some(s) => Some(s.name().to_owned()),
                None => None,
            },
        }
    }

    /// The message carried by the error.
    pub fn message(&self) -> (message: &str)
        ensures
            message@ == self.message_text(),
    {
        match self {
            ErrorCategory::Database { message, .. } => message.as_str(),
            ErrorCategory::Migration { message, .. } => message.as_str(),
            ErrorCategory::Io { message, .. } => message.as_str(),
            ErrorCategory::Config { message, .. } => message.as_str(),
            ErrorCategory::IconGeneration { message, .. } => message.as_str(),
            ErrorCategory::Image { message, .. } => message.as_str(),
            ErrorCategory::FileNotFound { message, .. } => message.as_str(),
            ErrorCategory::Keyring { message, .. } => message.as_str(),
            ErrorCategory::KeyGeneration { message, .. } => message.as_str(),
            ErrorCategory::Project { message, .. } => message.as_str(),
            ErrorCategory::Icon { message, .. } => message.as_str(),
            ErrorCategory::Connection { message, .. } => message.as_str(),
            ErrorCategory::Validation { message, .. } => message.as_str(),
            ErrorCategory::Auth { message, .. } => message.as_str(),
            ErrorCategory::Unknown { message, .. } => message.as_str(),
            ErrorCategory::Encryption { message, .. } => message.as_str(),
            ErrorCategory::KeyManagement { message, .. } => message.as_str(),
            ErrorCategory::System { message, .. } => message.as_str(),
        }
    }

    fn prefix(&self) -> (prefix: &'static str)
        ensures
            prefix@ == self.prefix_text(),
    {
        match self {
            ErrorCategory::Database { .. } => "Database error: ",
            ErrorCategory::Migration { .. } => "Migration error: ",
            ErrorCategory::Io { .. } => "IO error: ",
            ErrorCategory::Config { .. } => "Config error: ",
            ErrorCategory::IconGeneration { .. } => "Icon generation error: ",
            ErrorCategory::Image { .. } => "Image error: ",
            ErrorCategory::FileNotFound { .. } => "File not found: ",
            ErrorCategory::Keyring { .. } => "Keyring error: ",
            ErrorCategory::KeyGeneration { .. } => "Key generation error: ",
            ErrorCategory::Project { .. } => "Project error: ",
            ErrorCategory::Icon { .. } => "Icon error: ",
            ErrorCategory::Connection { .. } => "Connection error: ",
            ErrorCategory::Validation { .. } => "Validation error: ",
            ErrorCategory::Auth { .. } => "Auth error: ",
            ErrorCategory::Unknown { .. } => "Unknown error: ",
            ErrorCategory::Encryption { .. } => "Encryption error: ",
            ErrorCategory::KeyManagement { .. } => "Key management error: ",
            ErrorCategory::System { .. } => "System error: ",
        }
    }

    /// The displayed form of the error, such as `Project error: not found`.
    pub fn to_string(&self) -> (text: String)
        ensures
            text@ == self.display_text(),
    {
        String::from_str(self.prefix()).concat(self.message())
    }

    pub fn new_encryption(message: String, subcategory: Option<EncryptionSubcategory>) -> (error: Self)
        ensures
            error == (ErrorCategory::Encryption { message, subcategory, code: 14000, severity: ErrorSeverity::Error }),
    {
        ErrorCategory::Encryption { message, subcategory, code: 14000, severity: ErrorSeverity::Error }
    }

    pub fn new_database(message: String, subcategory: Option<DatabaseSubcategory>) -> (error: Self)
        ensures
            error == (ErrorCategory::Database { message, subcategory, code: 1000, severity: ErrorSeverity::Error }),
    {
        ErrorCategory::Database { message, subcategory, code: 1000, severity: ErrorSeverity::Error }
    }

    pub fn new_migration(message: String, subcategory: Option<MigrationSubcategory>) -> (error: Self)
        ensures
            error == (ErrorCategory::Migration { message, subcategory, code: 2000, severity: ErrorSeverity::Error }),
    {
        ErrorCategory::Migration { message, subcategory, code: 2000, severity: ErrorSeverity::Error }
    }

    pub fn new_io(message: String, subcategory: Option<IoSubcategory>) -> (error: Self)
        ensures
            error == (ErrorCategory::Io { message, subcategory, code: 3000, severity: ErrorSeverity::Error }),
    {
        ErrorCategory::Io { message, subcategory, code: 3000, severity: ErrorSeverity::Error }
    }

    pub fn new_config(message: String, subcategory: Option<ConfigSubcategory>) -> (error: Self)
        ensures
            error == (ErrorCategory::Config { message, subcategory, code: 5000, severity: ErrorSeverity::Error }),
    {
        ErrorCategory::Config { message, subcategory, code: 5000, severity: ErrorSeverity::Error }
    }

    pub fn new_icon_generation(message: String, subcategory: Option<IconGenerationSubcategory>) -> (error: Self)
        ensures
            error == (ErrorCategory::IconGeneration { message, subcategory, code: 4000, severity: ErrorSeverity::Error }),
    {
        ErrorCategory::IconGeneration { message, subcategory, code: 4000, severity: ErrorSeverity::Error }
    }

    pub fn new_keyring(message: String, subcategory: Option<KeyringSubcategory>) -> (error: Self)
        ensures
            error == (ErrorCategory::Keyring { message, subcategory, code: 7000, severity: ErrorSeverity::Error }),
    {
        ErrorCategory::Keyring { message, subcategory, code: 7000, severity: ErrorSeverity::Error }
    }

    pub fn new_key_generation(message: String, subcategory: Option<KeyGenerationSubcategory>) -> (error: Self)
        ensures
            error == (ErrorCategory::KeyGeneration { message, subcategory, code: 8000, severity: ErrorSeverity::Error }),
    {
        ErrorCategory::KeyGeneration { message, subcategory, code: 8000, severity: ErrorSeverity::Error }
    }

    pub fn new_project(message: String, subcategory: Option<ProjectSubcategory>) -> (error: Self)
        ensures
            error == (ErrorCategory::Project { message, subcategory, code: 9000, severity: ErrorSeverity::Error }),
    {
        ErrorCategory::Project { message, subcategory, code: 9000, severity: ErrorSeverity::Error }
    }

    pub fn new_key_management(message: String, subcategory: Option<KeyManagementSubcategory>) -> (error: Self)
        ensures
            error == (ErrorCategory::KeyManagement { message, subcategory, code: 15000, severity: ErrorSeverity::Error }),
    {
        ErrorCategory::KeyManagement { message, subcategory, code: 15000, severity: ErrorSeverity::Error }
    }

}

/// Wraps a bare message as an unknown error.
pub fn create_error_from_string(message: String) -> (error: ErrorCategory)
    ensures
        error == (ErrorCategory::Unknown {
            message,
            subcategory: None,
            code: 1000,
            severity: ErrorSeverity::Error,
        }),
{
    ErrorCategory::Unknown { message, subcategory: None, code: 1000, severity: ErrorSeverity::Error }
}

/// Wraps what an error displays as an unknown error.
pub fn create_error_from_error<E: core::fmt::Display>(error: E) -> (wrapped: ErrorCategory)
    ensures
        wrapped is Unknown,
        to_string_from_display_ensures::<E>(&error, wrapped->Unknown_message),
        wrapped.subcategory_text() is None,
        wrapped.code_value() == 1000,
        wrapped.severity_value() == ErrorSeverity::Error,
{
    create_error_from_string(error.to_string())
}

/// `std::io::Error`: why an I/O operation failed. It is carried through
/// for its message and its kind.
#[verifier::external_type_specification]
#[verifier::external_body]
pub struct ExIoError(std::io::Error);

impl From<std::io::Error> for ErrorCategory {
    /// An I/O error, with what the error displays as its message.
    fn from(error: std::io::Error) -> (converted: ErrorCategory)
        ensures
            converted is Io,
            exists|text: String|
                to_string_from_display_ensures::<std::io::Error>(&error, text)
                    && converted.message_text() == "IO error: "@ + text@,
            converted->Io_subcategory is None,
            converted.code_value() == 2000,
            converted.severity_value() == ErrorSeverity::Error,
    {
        ErrorCategory::Io {
            message: String::from_str("IO error: ").concat(error.to_string().as_str()),
            subcategory: None,
            code: 2000,
            severity: ErrorSeverity::Error,
        }
    }
}

impl vstd::std_specs::convert::FromSpecImpl<std::io::Error> for ErrorCategory {
    open spec fn obeys_from_spec() -> bool {
        false
    }

    open spec fn from_spec(error: std::io::Error) -> ErrorCategory {
        arbitrary()
    }
}

impl From<base64::DecodeError> for ErrorCategory {
    /// A text that is no base64, with what the decoder says of it as the
    /// message.
    fn from(error: base64::DecodeError) -> (converted: ErrorCategory)
        ensures
            converted is Encryption,
            exists|text: String|
                to_string_from_display_ensures::<base64::DecodeError>(&error, text)
                    && converted.message_text() == "Base64 decode error: "@ + text@,
            converted->Encryption_subcategory == Some(EncryptionSubcategory::InvalidFormat),
            converted.code_value() == 3000,
            converted.severity_value() == ErrorSeverity::Error,
    {
        ErrorCategory::Encryption {
            message: String::from_str("Base64 decode error: ").concat(error.to_string().as_str()),
            subcategory: Some(EncryptionSubcategory::InvalidFormat),
            code: 3000,
            severity: ErrorSeverity::Error,
        }
    }
}

impl vstd::std_specs::convert::FromSpecImpl<base64::DecodeError> for ErrorCategory {
    open spec fn obeys_from_spec() -> bool {
        false
    }

    open spec fn from_spec(error: base64::DecodeError) -> ErrorCategory {
        arbitrary()
    }
}

impl From<String> for ErrorCategory {
    /// A bare message, as an unknown error.
    fn from(error: String) -> (converted: ErrorCategory)
        ensures
            converted == (ErrorCategory::Unknown {
                message: error,
                subcategory: None,
                code: 9999,
                severity: ErrorSeverity::Error,
            }),
    {
        ErrorCategory::Unknown {
            message: error,
            subcategory: None,
            code: 9999,
            severity: ErrorSeverity::Error,
        }
    }
}

impl vstd::std_specs::convert::FromSpecImpl<String> for ErrorCategory {
    open spec fn obeys_from_spec() -> bool {
        true
    }

    open spec fn from_spec(error: String) -> ErrorCategory {
        ErrorCategory::Unknown {
            message: error,
            subcategory: None,
            code: 9999,
            severity: ErrorSeverity::Error,
        }
    }
}

impl<'a> From<&'a str> for ErrorCategory {
    /// A bare message, as an unknown error.
    fn from(error: &'a str) -> (converted: ErrorCategory)
        ensures
            converted is Unknown,
            converted.message_text() == error@,
            converted.subcategory_text() is None,
            converted.code_value() == 9999,
            converted.severity_value() == ErrorSeverity::Error,
    {
        ErrorCategory::Unknown {
            message: error.to_owned(),
            subcategory: None,
            code: 9999,
            severity: ErrorSeverity::Error,
        }
    }
}

impl<'a> vstd::std_specs::convert::FromSpecImpl<&'a str> for ErrorCategory {
    open spec fn obeys_from_spec() -> bool {
        false
    }

    open spec fn from_spec(error: &'a str) -> ErrorCategory {
        arbitrary()
    }
}

} // verus!
