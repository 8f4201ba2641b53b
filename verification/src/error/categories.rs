//! Category tags: an error category paired with its subcategory.

use vstd::prelude::*;
use vstd::string::*;
use crate::error_subcategories::{
    AuthSubcategory, ConfigSubcategory, ConnectionSubcategory, DatabaseSubcategory,
    EncryptionSubcategory, IconGenerationSubcategory, IconSubcategory, IoSubcategory,
    KeyGenerationSubcategory, KeyManagementSubcategory, KeyringSubcategory, MigrationSubcategory,
    ProjectSubcategory, UnknownSubcategory, ValidationSubcategory,
};

verus! {

/// All possible error categories
#[derive(Debug, Clone, Copy, PartialEq, Eq, Structural)]
pub enum ErrorCategory {
    Database(DatabaseSubcategory),
    Migration(MigrationSubcategory),
    Io(IoSubcategory),
    Config(ConfigSubcategory),
    IconGeneration(IconGenerationSubcategory),
    Icon(IconSubcategory),
    Keyring(KeyringSubcategory),
    KeyGeneration(KeyGenerationSubcategory),
    Project(ProjectSubcategory),
    Encryption(EncryptionSubcategory),
    KeyManagement(KeyManagementSubcategory),
    Connection(ConnectionSubcategory),
    Validation(ValidationSubcategory),
    Auth(AuthSubcategory),
    Unknown(UnknownSubcategory),
}

impl ErrorCategory {
    /// The first code of the block of a thousand codes reserved for the category.
    pub open spec fn base_code(self) -> nat {
        match self {
            ErrorCategory::Database(_) => 1000,
            ErrorCategory::Migration(_) => 2000,
            ErrorCategory::Io(_) => 3000,
            ErrorCategory::Config(_) => 4000,
            ErrorCategory::IconGeneration(_) => 5000,
            ErrorCategory::Icon(_) => 6000,
            ErrorCategory::Keyring(_) => 7000,
            ErrorCategory::KeyGeneration(_) => 8000,
            ErrorCategory::Project(_) => 9000,
            ErrorCategory::Encryption(_) => 10000,
            ErrorCategory::KeyManagement(_) => 11000,
            ErrorCategory::Connection(_) => 12000,
            ErrorCategory::Validation(_) => 13000,
            ErrorCategory::Auth(_) => 14000,
            ErrorCategory::Unknown(_) => 15000,
        }
    }

    /// The position of the subcategory within its enum.
    pub open spec fn subcategory_ordinal(self) -> nat {
        match self {
            ErrorCategory::Database(sub) => sub.ordinal_value(),
            ErrorCategory::Migration(sub) => sub.ordinal_value(),
            ErrorCategory::Io(sub) => sub.ordinal_value(),
            ErrorCategory::Config(sub) => sub.ordinal_value(),
            ErrorCategory::IconGeneration(sub) => sub.ordinal_value(),
            ErrorCategory::Icon(sub) => sub.ordinal_value(),
            ErrorCategory::Keyring(sub) => sub.ordinal_value(),
            ErrorCategory::KeyGeneration(sub) => sub.ordinal_value(),
            ErrorCategory::Project(sub) => sub.ordinal_value(),
            ErrorCategory::Encryption(sub) => sub.ordinal_value(),
            ErrorCategory::KeyManagement(sub) => sub.ordinal_value(),
            ErrorCategory::Connection(sub) => sub.ordinal_value(),
            ErrorCategory::Validation(sub) => sub.ordinal_value(),
            ErrorCategory::Auth(sub) => sub.ordinal_value(),
            ErrorCategory::Unknown(sub) => sub.ordinal_value(),
        }
    }

    /// The subcategory's name.
    pub open spec fn subcategory_text(self) -> Seq<char> {
        match self {
            ErrorCategory::Database(sub) => sub.name_text(),
            ErrorCategory::Migration(sub) => sub.name_text(),
            ErrorCategory::Io(sub) => sub.name_text(),
            ErrorCategory::Config(sub) => sub.name_text(),
            ErrorCategory::IconGeneration(sub) => sub.name_text(),
            ErrorCategory::Icon(sub) => sub.name_text(),
            ErrorCategory::Keyring(sub) => sub.name_text(),
            ErrorCategory::KeyGeneration(sub) => sub.name_text(),
            ErrorCategory::Project(sub) => sub.name_text(),
            ErrorCategory::Encryption(sub) => sub.name_text(),
            ErrorCategory::KeyManagement(sub) => sub.name_text(),
            ErrorCategory::Connection(sub) => sub.name_text(),
            ErrorCategory::Validation(sub) => sub.name_text(),
            ErrorCategory::Auth(sub) => sub.name_text(),
            ErrorCategory::Unknown(sub) => sub.name_text(),
        }
    }

    /// The text that introduces the subcategory when the category is described.
    pub open spec fn prefix_text(self) -> Seq<char> {
        match self {
            ErrorCategory::Database(_) => "Database error: "@,
            ErrorCategory::Migration(_) => "Migration error: "@,
            ErrorCategory::Io(_) => "IO error: "@,
            ErrorCategory::Config(_) => "Configuration error: "@,
            ErrorCategory::IconGeneration(_) => "Icon generation error: "@,
            ErrorCategory::Icon(_) => "Icon error: "@,
            ErrorCategory::Keyring(_) => "Keyring error: "@,
            ErrorCategory::KeyGeneration(_) => "Key generation error: "@,
            ErrorCategory::Project(_) => "Project error: "@,
            ErrorCategory::Encryption(_) => "Encryption error: "@,
            ErrorCategory::KeyManagement(_) => "Key management error: "@,
            ErrorCategory::Connection(_) => "Connection error: "@,
            ErrorCategory::Validation(_) => "Validation error: "@,
            ErrorCategory::Auth(_) => "Authentication error: "@,
            ErrorCategory::Unknown(_) => "Unknown error: "@,
        }
    }

    /// The numeric code of the category and subcategory pair.
    pub open spec fn code_value(self) -> nat {
        self.base_code() + self.subcategory_ordinal()
    }

    /// The described form of the category: its prefix followed by the subcategory's name.
    pub open spec fn description_text(self) -> Seq<char> {
        self.prefix_text() + self.subcategory_text()
    }

    fn base(&self) -> (base: u32)
        ensures
            base == self.base_code(),
            base <= 15000,
    {
        match self {
            ErrorCategory::Database(_) => 1000,
            ErrorCategory::Migration(_) => 2000,
            ErrorCategory::Io(_) => 3000,
            ErrorCategory::Config(_) => 4000,
            ErrorCategory::IconGeneration(_) => 5000,
            ErrorCategory::Icon(_) => 6000,
            ErrorCategory::Keyring(_) => 7000,
            ErrorCategory::KeyGeneration(_) => 8000,
            ErrorCategory::Project(_) => 9000,
            ErrorCategory::Encryption(_) => 10000,
            ErrorCategory::KeyManagement(_) => 11000,
            ErrorCategory::Connection(_) => 12000,
            ErrorCategory::Validation(_) => 13000,
            ErrorCategory::Auth(_) => 14000,
            ErrorCategory::Unknown(_) => 15000,
        }
    }

    fn subcategory_position(&self) -> (position: u32)
        ensures
            position == self.subcategory_ordinal(),
            position < 16,
    {
        match self {
            ErrorCategory::Database(sub) => sub.ordinal(),
            ErrorCategory::Migration(sub) => sub.ordinal(),
            ErrorCategory::Io(sub) => sub.ordinal(),
            ErrorCategory::Config(sub) => sub.ordinal(),
            ErrorCategory::IconGeneration(sub) => sub.ordinal(),
            ErrorCategory::Icon(sub) => sub.ordinal(),
            ErrorCategory::Keyring(sub) => sub.ordinal(),
            ErrorCategory::KeyGeneration(sub) => sub.ordinal(),
            ErrorCategory::Project(sub) => sub.ordinal(),
            ErrorCategory::Encryption(sub) => sub.ordinal(),
            ErrorCategory::KeyManagement(sub) => sub.ordinal(),
            ErrorCategory::Connection(sub) => sub.ordinal(),
            ErrorCategory::Validation(sub) => sub.ordinal(),
            ErrorCategory::Auth(sub) => sub.ordinal(),
            ErrorCategory::Unknown(sub) => sub.ordinal(),
        }
    }

    /// The numeric code of the category and subcategory pair: the category's
    /// base code plus the subcategory's position.
    pub fn code(&self) -> (code: u32)
        ensures
            code == self.code_value(),
    {
        self.base() + self.subcategory_position()
    }

    /// The subcategory's name, such as `QueryFailed`.
    pub fn subcategory_name(&self) -> (name: &'static str)
        ensures
            name@ == self.subcategory_text(),
    {
        match self {
            ErrorCategory::Database(sub) => sub.name(),
            ErrorCategory::Migration(sub) => sub.name(),
            ErrorCategory::Io(sub) => sub.name(),
            ErrorCategory::Config(sub) => sub.name(),
            ErrorCategory::IconGeneration(sub) => sub.name(),
            ErrorCategory::Icon(sub) => sub.name(),
            ErrorCategory::Keyring(sub) => sub.name(),
            ErrorCategory::KeyGeneration(sub) => sub.name(),
            ErrorCategory::Project(sub) => sub.name(),
            ErrorCategory::Encryption(sub) => sub.name(),
            ErrorCategory::KeyManagement(sub) => sub.name(),
            ErrorCategory::Connection(sub) => sub.name(),
            ErrorCategory::Validation(sub) => sub.name(),
            ErrorCategory::Auth(sub) => sub.name(),
            ErrorCategory::Unknown(sub) => sub.name(),
        }
    }

    fn prefix(&self) -> (prefix: &'static str)
        ensures
            prefix@ == self.prefix_text(),
    {
        match self {
            ErrorCategory::Database(_) => "Database error: ",
            ErrorCategory::Migration(_) => "Migration error: ",
            ErrorCategory::Io(_) => "IO error: ",
            ErrorCategory::Config(_) => "Configuration error: ",
            ErrorCategory::IconGeneration(_) => "Icon generation error: ",
            ErrorCategory::Icon(_) => "Icon error: ",
            ErrorCategory::Keyring(_) => "Keyring error: ",
            ErrorCategory::KeyGeneration(_) => "Key generation error: ",
            ErrorCategory::Project(_) => "Project error: ",
            ErrorCategory::Encryption(_) => "Encryption error: ",
            ErrorCategory::KeyManagement(_) => "Key management error: ",
            ErrorCategory::Connection(_) => "Connection error: ",
            ErrorCategory::Validation(_) => "Validation error: ",
            ErrorCategory::Auth(_) => "Authentication error: ",
            ErrorCategory::Unknown(_) => "Unknown error: ",
        }
    }

    /// The described form of the category, such as `Database error: QueryFailed`.
    pub fn to_string(&self) -> (text: String)
        ensures
            text@ == self.description_text(),
    {
        String::from_str(self.prefix()).concat(self.subcategory_name())
    }
}

} // verus!
