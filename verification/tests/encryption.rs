use aes_gcm::aead::{Aead, KeyInit};
use base64::Engine;
use dewey_lib::error::categories::ErrorCategory;
use dewey_lib::error::ErrorSeverity;
use dewey_lib::error_subcategories::EncryptionSubcategory;
use dewey_lib::services::encryption::{
    decrypt_string, decrypt_with_key, encrypt_string, encrypt_with_nonce, KeyProvider,
};
use dewey_lib::services::envelope::Envelope;
use dewey_lib::services::key_management::{generate_key, MasterKey};

fn fixed_key(byte: u8) -> MasterKey {
    MasterKey::from_bytes(vec![byte; 32]).unwrap()
}

fn provider(byte: u8) -> KeyProvider {
    KeyProvider::with_key(fixed_key(byte))
}

fn kind(result: Result<String, dewey_lib::error::types::AppError>) -> EncryptionSubcategory {
    let error = result.unwrap_err();
    assert_eq!(error.severity, ErrorSeverity::Error);
    match error.category {
        ErrorCategory::Encryption(kind) => kind,
        other => panic!("not an encryption error: {:?}", other),
    }
}

#[test]
fn test_encryption_decryption() {
    let provider = KeyProvider::with_key(generate_key().unwrap());
    let plain = "Hello, World!";
    let encrypted = encrypt_string(&provider, plain).unwrap();
    let decrypted = decrypt_string(&provider, &encrypted).unwrap();

    assert_eq!(plain, decrypted);
}

#[test]
fn round_trip_of_empty_control_and_multibyte_strings() {
    let provider = provider(7);
    for s in ["", "a", "\u{0}\u{1}\n\t\r", "naïve café", "日本語のテキスト", "🦀 crab \u{10ffff}", "\"quoted\\\""] {
        let sealed = encrypt_string(&provider, s).unwrap();
        assert_eq!(decrypt_string(&provider, &sealed).unwrap(), s);
    }
}

#[test]
fn sealing_is_the_standard_cipher() {
    let key = fixed_key(0);
    let sealed = encrypt_with_nonce(&key, &[0u8; 12], "").unwrap();
    assert_eq!(
        sealed,
        "{\"nonce\":\"AAAAAAAAAAAAAAAA\",\"ciphertext\":\"Uw+K+8dFNrmpY7TxxMtziw==\"}"
    );
    let zeros = "\0".repeat(16);
    let sealed = encrypt_with_nonce(&key, &[0u8; 12], &zeros).unwrap();
    assert_eq!(
        sealed,
        "{\"nonce\":\"AAAAAAAAAAAAAAAA\",\"ciphertext\":\"zqdAPU1ga24HTsXTuvOdGNDRyKeZmWvwJluYtdSKuRk=\"}"
    );
    assert_eq!(decrypt_with_key(&key, &sealed).unwrap(), zeros);
}

#[test]
fn ciphertext_is_the_plaintext_length_plus_the_tag() {
    let key = fixed_key(1);
    let sealed = encrypt_with_nonce(&key, &[9u8; 12], "p@ssw0rd!").unwrap();
    let envelope = Envelope::parse(&sealed).unwrap();
    // 12 bytes are 16 characters; 9 + 16 = 25 bytes are 36 characters.
    assert_eq!(envelope.nonce.len(), 16);
    assert_eq!(envelope.ciphertext.len(), 36);
}

#[test]
fn a_nonce_of_another_length_is_refused() {
    let key = fixed_key(1);
    assert_eq!(
        kind(encrypt_with_nonce(&key, &[0u8; 11], "x")),
        EncryptionSubcategory::EncryptionFailed
    );
    assert_eq!(
        kind(encrypt_with_nonce(&key, &[0u8; 13], "x")),
        EncryptionSubcategory::EncryptionFailed
    );
}

#[test]
fn encrypting_twice_gives_two_envelopes() {
    let provider = provider(3);
    let first = encrypt_string(&provider, "same").unwrap();
    let second = encrypt_string(&provider, "same").unwrap();
    assert_ne!(first, second);
    let a = Envelope::parse(&first).unwrap();
    let b = Envelope::parse(&second).unwrap();
    assert_ne!(a.nonce, b.nonce);
    assert_ne!(a.ciphertext, b.ciphertext);
    assert_eq!(decrypt_string(&provider, &first).unwrap(), "same");
    assert_eq!(decrypt_string(&provider, &second).unwrap(), "same");
}

#[test]
fn two_nonces_give_two_envelopes() {
    let key = fixed_key(3);
    let first = encrypt_with_nonce(&key, &[1u8; 12], "same").unwrap();
    let second = encrypt_with_nonce(&key, &[2u8; 12], "same").unwrap();
    assert_ne!(first, second);
    let again = encrypt_with_nonce(&key, &[1u8; 12], "same").unwrap();
    assert_eq!(first, again);
}

fn replace_char(text: &str, at: usize, with: char) -> String {
    let mut chars: Vec<char> = text.chars().collect();
    chars[at] = with;
    chars.into_iter().collect()
}

#[test]
fn tampering_with_any_character_of_either_field_is_detected() {
    let key = fixed_key(5);
    let sealed = encrypt_with_nonce(&key, &[4u8; 12], "p@ssw0rd!").unwrap();
    let envelope = Envelope::parse(&sealed).unwrap();
    for at in 0..envelope.nonce.len() {
        for with in ['A', 'B', '/', '=', '!'] {
            let nonce = replace_char(&envelope.nonce, at, with);
            if nonce == envelope.nonce {
                continue;
            }
            let forged = Envelope { nonce, ciphertext: envelope.ciphertext.clone() }.to_text();
            assert!(decrypt_with_key(&key, &forged).is_err());
        }
    }
    for at in 0..envelope.ciphertext.len() {
        for with in ['A', 'B', '/', '=', '!'] {
            let ciphertext = replace_char(&envelope.ciphertext, at, with);
            if ciphertext == envelope.ciphertext {
                continue;
            }
            let forged = Envelope { nonce: envelope.nonce.clone(), ciphertext }.to_text();
            assert!(decrypt_with_key(&key, &forged).is_err());
        }
    }
}

#[test]
fn flipping_one_bit_of_the_sealed_bytes_is_detected() {
    let engine = base64::engine::general_purpose::STANDARD;
    let key = fixed_key(5);
    let sealed = encrypt_with_nonce(&key, &[4u8; 12], "p@ssw0rd!").unwrap();
    let envelope = Envelope::parse(&sealed).unwrap();
    let nonce = engine.decode(&envelope.nonce).unwrap();
    let ciphertext = engine.decode(&envelope.ciphertext).unwrap();
    for at in 0..nonce.len() {
        let mut forged = nonce.clone();
        forged[at] ^= 1;
        let text = Envelope {
            nonce: engine.encode(&forged),
            ciphertext: envelope.ciphertext.clone(),
        }
        .to_text();
        assert_eq!(
            kind(decrypt_with_key(&key, &text)),
            EncryptionSubcategory::DecryptionFailed
        );
    }
    for at in 0..ciphertext.len() {
        let mut forged = ciphertext.clone();
        forged[at] ^= 0x80;
        let text = Envelope {
            nonce: envelope.nonce.clone(),
            ciphertext: engine.encode(&forged),
        }
        .to_text();
        assert_eq!(
            kind(decrypt_with_key(&key, &text)),
            EncryptionSubcategory::DecryptionFailed
        );
    }
}

#[test]
fn another_key_does_not_open_the_envelope() {
    let sealed = encrypt_string(&provider(1), "secret").unwrap();
    assert_eq!(
        kind(decrypt_string(&provider(2), &sealed)),
        EncryptionSubcategory::DecryptionFailed
    );
}

#[test]
fn without_a_key_nothing_is_encrypted_or_decrypted() {
    let empty = KeyProvider::new();
    assert!(!empty.is_ready());
    assert_eq!(
        kind(encrypt_string(&empty, "x")),
        EncryptionSubcategory::KeyNotInitialized
    );
    let sealed = encrypt_string(&provider(1), "x").unwrap();
    assert_eq!(
        kind(decrypt_string(&empty, &sealed)),
        EncryptionSubcategory::KeyNotInitialized
    );
}

#[test]
fn each_refusal_has_its_kind() {
    let key = fixed_key(1);
    assert_eq!(
        kind(decrypt_with_key(&key, "not an envelope")),
        EncryptionSubcategory::DeserializationFailed
    );
    assert_eq!(
        kind(decrypt_with_key(&key, "{\"nonce\":\"AAAA\"}")),
        EncryptionSubcategory::DeserializationFailed
    );
    assert_eq!(
        kind(decrypt_with_key(&key, "{\"nonce\":\"!!!!\",\"ciphertext\":\"AAAA\"}")),
        EncryptionSubcategory::Base64DecodeFailed
    );
    assert_eq!(
        kind(decrypt_with_key(&key, "{\"nonce\":\"AAAAAAAAAAAAAAAA\",\"ciphertext\":\"A\"}")),
        EncryptionSubcategory::Base64DecodeFailed
    );
    assert_eq!(
        kind(decrypt_with_key(&key, "{\"nonce\":\"AAAA\",\"ciphertext\":\"AAAA\"}")),
        EncryptionSubcategory::InvalidFormat
    );
    assert_eq!(
        kind(decrypt_with_key(&key, "{\"nonce\":\"AAAAAAAAAAAAAAAA\",\"ciphertext\":\"AAAA\"}")),
        EncryptionSubcategory::DecryptionFailed
    );
}

#[test]
fn sealed_bytes_that_are_no_text_are_refused() {
    let engine = base64::engine::general_purpose::STANDARD;
    let cipher = aes_gcm::Aes256Gcm::new_from_slice(&[1u8; 32]).unwrap();
    let nonce = [6u8; 12];
    let sealed = cipher
        .encrypt(aes_gcm::Nonce::from_slice(&nonce), &[0xffu8, 0xfe, 0x80][..])
        .unwrap();
    let text = Envelope { nonce: engine.encode(nonce), ciphertext: engine.encode(sealed) }.to_text();
    assert_eq!(
        kind(decrypt_with_key(&fixed_key(1), &text)),
        EncryptionSubcategory::Utf8DecodeFailed
    );
}

#[test]
fn the_library_opens_what_the_cipher_sealed() {
    let engine = base64::engine::general_purpose::STANDARD;
    let cipher = aes_gcm::Aes256Gcm::new_from_slice(&[8u8; 32]).unwrap();
    let nonce = [3u8; 12];
    let sealed = cipher
        .encrypt(aes_gcm::Nonce::from_slice(&nonce), "straight from the cipher".as_bytes())
        .unwrap();
    let text = format!(
        "{{\"nonce\":\"{}\",\"ciphertext\":\"{}\"}}",
        engine.encode(nonce),
        engine.encode(sealed)
    );
    assert_eq!(decrypt_with_key(&fixed_key(8), &text).unwrap(), "straight from the cipher");
}

#[test]
fn a_persisted_envelope_is_opened_after_a_restart() {
    let persisted = {
        let provider = provider(42);
        encrypt_string(&provider, "p@ssw0rd!").unwrap()
    };
    // Nothing of the first provider is left; the key is resolved anew.
    let provider = provider(42);
    assert_eq!(decrypt_string(&provider, &persisted).unwrap(), "p@ssw0rd!");
}

#[test]
fn the_provider_keeps_the_first_key() {
    let mut provider = KeyProvider::new();
    assert!(provider.get().is_none());
    assert!(provider.install(fixed_key(1)));
    assert!(!provider.install(fixed_key(2)));
    assert!(provider.is_ready());
    assert_eq!(provider.get().unwrap().as_bytes(), &[1u8; 32][..]);
}
