//! Database connections, and the five fields of them that are secret.
//!
//! A connection's host, port, user name, password and database name never
//! reach the disk in clear: each is sealed into an envelope of its own
//! before the connection is stored, and opened after it was read back.

use vstd::prelude::*;
use crate::error::ErrorSeverity;
use crate::error::categories::ErrorCategory;
use crate::error::types::{AppError, AppResult};
use crate::error_subcategories::{EncryptionSubcategory, ValidationSubcategory};
use crate::services::encryption::{
    decrypt_string, encrypt_string, is_failure, opens_to, refusal, KeyProvider,
};

verus! {

/// Represents a database connection in the application
#[derive(Debug)]
pub struct Connection {
    pub id: i64,
    pub connection_name: String,
    pub project_id: i64,
    pub db_type: String,
    pub host: String,
    pub port: String,
    pub username: String,
    pub password: String,
    pub database: String,
    pub created_at: Option<i64>,
    pub updated_at: Option<i64>,
}

/// Represents a new database connection to be created
#[derive(Debug)]
pub struct NewConnection {
    pub connection_name: String,
    pub project_id: Option<i64>,
    pub db_type: String,
    pub host: String,
    pub port: String,
    pub username: String,
    pub password: String,
    pub database: String,
}

/// A connection as it is stored: what names it in clear, and each secret
/// field as the record of its envelope.
#[derive(Debug)]
pub struct StoredConnection {
    pub connection_name: String,
    pub project_id: i64,
    pub db_type: String,
    pub encrypted_host: String,
    pub encrypted_port: String,
    pub encrypted_username: String,
    pub encrypted_password: String,
    pub encrypted_database: String,
}

/// Whether `text` is what sealing some string under `key` gives.
pub open spec fn opens(key: Seq<u8>, text: Seq<char>) -> bool {
    exists|value: Seq<char>| #[trigger] opens_to(key, text, value)
}

impl StoredConnection {
    /// The first of the five records that does not open under `key`, in the
    /// order host, port, user name, password, database; the last one where
    /// all of them open.
    pub open spec fn first_refused(self, key: Seq<u8>) -> Seq<char> {
        if !opens(key, self.encrypted_host@) {
            self.encrypted_host@
        } else if !opens(key, self.encrypted_port@) {
            self.encrypted_port@
        } else if !opens(key, self.encrypted_username@) {
            self.encrypted_username@
        } else if !opens(key, self.encrypted_password@) {
            self.encrypted_password@
        } else {
            self.encrypted_database@
        }
    }

    /// Whether all five records open under `key`.
    pub open spec fn all_open(self, key: Seq<u8>) -> bool {
        &&& opens(key, self.encrypted_host@)
        &&& opens(key, self.encrypted_port@)
        &&& opens(key, self.encrypted_username@)
        &&& opens(key, self.encrypted_password@)
        &&& opens(key, self.encrypted_database@)
    }

    /// Whether the five records are sealings of the secret fields of
    /// `connection` under `key`.
    pub open spec fn protects(self, key: Seq<u8>, connection: NewConnection) -> bool {
        &&& opens_to(key, self.encrypted_host@, connection.host@)
        &&& opens_to(key, self.encrypted_port@, connection.port@)
        &&& opens_to(key, self.encrypted_username@, connection.username@)
        &&& opens_to(key, self.encrypted_password@, connection.password@)
        &&& opens_to(key, self.encrypted_database@, connection.database@)
    }

    /// Opens the five secret fields of a connection that was read back, and
    /// joins them with the row's number and timestamps. Fails where one of
    /// the records does not open; no field is then given out.
    pub fn unprotect(
        &self,
        provider: &KeyProvider,
        id: i64,
        created_at: Option<i64>,
        updated_at: Option<i64>,
    ) -> (result: AppResult<Connection>)
        ensures
            provider.key() is None ==> (result matches Err(error) && is_failure(
                error,
                EncryptionSubcategory::KeyNotInitialized,
            )),
            provider.key() is Some ==> (result is Ok <==> self.all_open(provider.key()->0)),
            provider.key() is Some ==> (result matches Ok(connection) ==> {
                &&& connection.id == id
                &&& connection.connection_name@ == self.connection_name@
                &&& connection.project_id == self.project_id
                &&& connection.db_type@ == self.db_type@
                &&& connection.created_at == created_at
                &&& connection.updated_at == updated_at
                &&& opens_to(provider.key()->0, self.encrypted_host@, connection.host@)
                &&& opens_to(provider.key()->0, self.encrypted_port@, connection.port@)
                &&& opens_to(provider.key()->0, self.encrypted_username@, connection.username@)
                &&& opens_to(provider.key()->0, self.encrypted_password@, connection.password@)
                &&& opens_to(provider.key()->0, self.encrypted_database@, connection.database@)
            }),
            provider.key() is Some ==> (result matches Err(error) ==> is_failure(
                error,
                refusal(provider.key()->0, self.first_refused(provider.key()->0)),
            )),
            provider.key() is Some ==> forall|connection: NewConnection| #[trigger]
                self.protects(provider.key()->0, connection) ==> (result matches Ok(revealed) && {
                    &&& revealed.host@ == connection.host@
                    &&& revealed.port@ == connection.port@
                    &&& revealed.username@ == connection.username@
                    &&& revealed.password@ == connection.password@
                    &&& revealed.database@ == connection.database@
                }),
    {
        let host = match decrypt_string(provider, self.encrypted_host.as_str()) {
            Ok(host) => host,
            Err(e) => {
                return Err(e);
            },
        };
        let port = match decrypt_string(provider, self.encrypted_port.as_str()) {
            Ok(port) => port,
            Err(e) => {
                return Err(e);
            },
        };
        let username = match decrypt_string(provider, self.encrypted_username.as_str()) {
            Ok(username) => username,
            Err(e) => {
                return Err(e);
            },
        };
        let password = match decrypt_string(provider, self.encrypted_password.as_str()) {
            Ok(password) => password,
            Err(e) => {
                return Err(e);
            },
        };
        let database = match decrypt_string(provider, self.encrypted_database.as_str()) {
            Ok(database) => database,
            Err(e) => {
                return Err(e);
            },
        };
        Ok(
            Connection {
                id,
                connection_name: self.connection_name.clone(),
                project_id: self.project_id,
                db_type: self.db_type.clone(),
                host,
                port,
                username,
                password,
                database,
                created_at,
                updated_at,
            },
        )
    }
}

impl NewConnection {
    /// Seals the five secret fields, each into an envelope of its own, for
    /// the connection to be stored. A connection that names no project
    /// cannot be stored.
    pub fn protect(&self, provider: &KeyProvider) -> (result: AppResult<StoredConnection>)
        ensures
            self.project_id is None ==> (result matches Err(error) && error.category
                == ErrorCategory::Validation(ValidationSubcategory::MissingRequired)
                && error.severity == ErrorSeverity::Error),
            self.project_id is Some && provider.key() is None ==> (result matches Err(error)
                && is_failure(error, EncryptionSubcategory::KeyNotInitialized)),
            self.project_id is Some && provider.key() is Some ==> (result matches Ok(stored) ==> {
                &&& stored.connection_name@ == self.connection_name@
                &&& stored.project_id == self.project_id->0
                &&& stored.db_type@ == self.db_type@
                &&& stored.protects(provider.key()->0, *self)
            }),
            self.project_id is Some && provider.key() is Some ==> (result matches Err(error)
                ==> is_failure(error, EncryptionSubcategory::EncryptionFailed)),
    {
        let project_id = match self.project_id {
            Some(project_id) => project_id,
            None => {
                return Err(
                    AppError::new(
                        "project_id is required for database insertion".to_owned(),
                        ErrorCategory::Validation(ValidationSubcategory::MissingRequired),
                        ErrorSeverity::Error,
                    ),
                );
            },
        };
        let encrypted_host = match encrypt_string(provider, self.host.as_str()) {
            Ok(sealed) => sealed,
            Err(e) => {
                return Err(e);
            },
        };
        let encrypted_port = match encrypt_string(provider, self.port.as_str()) {
            Ok(sealed) => sealed,
            Err(e) => {
                return Err(e);
            },
        };
        let encrypted_username = match encrypt_string(provider, self.username.as_str()) {
            Ok(sealed) => sealed,
            Err(e) => {
                return Err(e);
            },
        };
        let encrypted_password = match encrypt_string(provider, self.password.as_str()) {
            Ok(sealed) => sealed,
            Err(e) => {
                return Err(e);
            },
        };
        let encrypted_database = match encrypt_string(provider, self.database.as_str()) {
            Ok(sealed) => sealed,
            Err(e) => {
                return Err(e);
            },
        };
        Ok(
            StoredConnection {
                connection_name: self.connection_name.clone(),
                project_id,
                db_type: self.db_type.clone(),
                encrypted_host,
                encrypted_port,
                encrypted_username,
                encrypted_password,
                encrypted_database,
            },
        )
    }
}

} // verus!
