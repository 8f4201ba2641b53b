use dewey_lib::error::categories::ErrorCategory;
use dewey_lib::error_subcategories::{EncryptionSubcategory, ValidationSubcategory};
use dewey_lib::services::connections::NewConnection;
use dewey_lib::services::encryption::{decrypt_string, KeyProvider};
use dewey_lib::services::key_management::MasterKey;

fn provider(byte: u8) -> KeyProvider {
    KeyProvider::with_key(MasterKey::from_bytes(vec![byte; 32]).unwrap())
}

fn connection() -> NewConnection {
    NewConnection {
        connection_name: "staging".to_string(),
        project_id: Some(7),
        db_type: "postgres".to_string(),
        host: "db.example.test".to_string(),
        port: "5432".to_string(),
        username: "dewey".to_string(),
        password: "p@ssw0rd!".to_string(),
        database: "catalogue".to_string(),
    }
}

#[test]
fn the_five_secret_fields_are_sealed_and_the_names_are_not() {
    let provider = provider(1);
    let stored = connection().protect(&provider).unwrap();
    assert_eq!(stored.connection_name, "staging");
    assert_eq!(stored.project_id, 7);
    assert_eq!(stored.db_type, "postgres");
    for (sealed, clear) in [
        (&stored.encrypted_host, "db.example.test"),
        (&stored.encrypted_port, "5432"),
        (&stored.encrypted_username, "dewey"),
        (&stored.encrypted_password, "p@ssw0rd!"),
        (&stored.encrypted_database, "catalogue"),
    ] {
        assert!(!sealed.contains(clear));
        assert_eq!(decrypt_string(&provider, sealed).unwrap(), clear);
    }
}

#[test]
fn a_stored_connection_is_read_back() {
    let provider = provider(1);
    let stored = connection().protect(&provider).unwrap();
    let read = stored.unprotect(&provider, 42, Some(1_700_000_000), None).unwrap();
    assert_eq!(read.id, 42);
    assert_eq!(read.connection_name, "staging");
    assert_eq!(read.project_id, 7);
    assert_eq!(read.db_type, "postgres");
    assert_eq!(read.host, "db.example.test");
    assert_eq!(read.port, "5432");
    assert_eq!(read.username, "dewey");
    assert_eq!(read.password, "p@ssw0rd!");
    assert_eq!(read.database, "catalogue");
    assert_eq!(read.created_at, Some(1_700_000_000));
    assert_eq!(read.updated_at, None);
}

#[test]
fn a_connection_without_a_project_is_not_stored() {
    let mut new = connection();
    new.project_id = None;
    let error = new.protect(&provider(1)).unwrap_err();
    assert_eq!(
        error.category,
        ErrorCategory::Validation(ValidationSubcategory::MissingRequired)
    );
}

#[test]
fn without_a_key_no_connection_is_stored_or_read() {
    let error = connection().protect(&KeyProvider::new()).unwrap_err();
    assert_eq!(
        error.category,
        ErrorCategory::Encryption(EncryptionSubcategory::KeyNotInitialized)
    );
    let stored = connection().protect(&provider(1)).unwrap();
    let error = stored.unprotect(&KeyProvider::new(), 1, None, None).unwrap_err();
    assert_eq!(
        error.category,
        ErrorCategory::Encryption(EncryptionSubcategory::KeyNotInitialized)
    );
}

#[test]
fn one_field_that_does_not_open_withholds_the_connection() {
    let provider = provider(1);
    let mut stored = connection().protect(&provider).unwrap();
    stored.encrypted_password = "{\"nonce\":\"AAAAAAAAAAAAAAAA\",\"ciphertext\":\"AAAA\"}".to_string();
    let error = stored.unprotect(&provider, 1, None, None).unwrap_err();
    assert_eq!(
        error.category,
        ErrorCategory::Encryption(EncryptionSubcategory::DecryptionFailed)
    );
    let mut stored = connection().protect(&provider).unwrap();
    stored.encrypted_host = "db.example.test".to_string();
    stored.encrypted_port = "{\"nonce\":\"!\",\"ciphertext\":\"\"}".to_string();
    let error = stored.unprotect(&provider, 1, None, None).unwrap_err();
    assert_eq!(
        error.category,
        ErrorCategory::Encryption(EncryptionSubcategory::DeserializationFailed)
    );
}

#[test]
fn another_key_reads_no_connection() {
    let stored = connection().protect(&provider(1)).unwrap();
    let error = stored.unprotect(&provider(2), 1, None, None).unwrap_err();
    assert_eq!(
        error.category,
        ErrorCategory::Encryption(EncryptionSubcategory::DecryptionFailed)
    );
}
