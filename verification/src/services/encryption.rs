//! The envelope cipher: authenticated encryption of one secret field.
//!
//! A string is sealed with AES-256-GCM under the master key and a nonce of
//! its own, and stored as the text record of the envelope that holds the
//! nonce and the ciphertext. Opening a record gives the string back, or
//! fails: a record that was not sealed under this key is never opened to
//! anything.

use vstd::prelude::*;
use vstd::utf8::{
    decode_utf8, decode_utf8_encode_utf8, encode_utf8, encode_utf8_decode_utf8,
    encode_utf8_valid_utf8, valid_utf8,
};
use crate::error::ErrorSeverity;
use crate::error::categories::ErrorCategory;
use crate::error::types::{AppError, AppResult};
use crate::error_subcategories::EncryptionSubcategory;
use crate::services::aead::{
    aes256_gcm_seal, seal, unseal, MAX_PLAINTEXT_LEN, NONCE_LEN, TAG_LEN,
};
use crate::services::encoding::{
    base64_text, decode_base64, encode_base64, is_base64_char, lemma_base64_text_chars,
    lemma_base64_text_injective, max_encodable_len, string_from_utf8,
};
use crate::services::envelope::{
    envelope_text, is_envelope_text, is_field_char, is_field_text, lemma_envelope_text_injective,
    Envelope,
};
use crate::services::key_management::MasterKey;
use crate::services::random::random_bytes;

verus! {

/// Holds the master key for the cipher, once it was resolved. The key is
/// installed at most once: a later key is dropped, and the first one stays.
pub struct KeyProvider {
    slot: Option<MasterKey>,
}

impl KeyProvider {
    /// The key that the provider holds, if it holds one.
    pub closed spec fn key(&self) -> Option<Seq<u8>> {
        match self.slot {
            Some(key) => Some(key@),
            None => None,
        }
    }

    /// A provider that holds no key yet.
    pub fn new() -> (provider: KeyProvider)
        ensures
            provider.key() is None,
    {
        KeyProvider { slot: None }
    }

    /// A provider that holds `key`.
    pub fn with_key(key: MasterKey) -> (provider: KeyProvider)
        ensures
            provider.key() == Some(key@),
    {
        KeyProvider { slot: Some(key) }
    }

    /// Installs `key`, unless a key was installed before. Says whether this
    /// key was taken.
    pub fn install(&mut self, key: MasterKey) -> (taken: bool)
        ensures
            taken <==> old(self).key() is None,
            final(self).key() == if old(self).key() is None {
                Some(key@)
            } else {
                old(self).key()
            },
    {
        if self.slot.is_none() {
            self.slot = Some(key);
            true
        } else {
            false
        }
    }

    /// Whether a key was installed.
    pub fn is_ready(&self) -> (ready: bool)
        ensures
            ready <==> self.key() is Some,
    {
        self.slot.is_some()
    }

    /// The installed key.
    pub fn get(&self) -> (key: Option<&MasterKey>)
        ensures
            key is Some <==> self.key() is Some,
            key matches Some(k) ==> self.key() == Some(k@),
    {
        self.slot.as_ref()
    }
}

/// Whether the cipher takes `plaintext`: its bytes are within the cipher's
/// limit, and the text of the ciphertext is no longer than a buffer can be.
pub open spec fn is_sealable(plaintext: Seq<char>) -> bool {
    encode_utf8(plaintext).len() <= MAX_PLAINTEXT_LEN && encode_utf8(plaintext).len() + TAG_LEN
        <= max_encodable_len()
}

/// The record of the envelope that seals `plaintext` under `key` and
/// `nonce`.
pub open spec fn sealed_text(key: Seq<u8>, nonce: Seq<u8>, plaintext: Seq<char>) -> Seq<char> {
    envelope_text(
        base64_text(nonce),
        base64_text(aes256_gcm_seal(key, nonce, encode_utf8(plaintext))),
    )
}

/// Whether `text` is what sealing `plaintext` under `key` gives, with some
/// nonce.
pub open spec fn opens_to(key: Seq<u8>, text: Seq<char>, plaintext: Seq<char>) -> bool {
    exists|nonce: Seq<u8>|
        nonce.len() == NONCE_LEN && encode_utf8(plaintext).len() <= MAX_PLAINTEXT_LEN && text
            == #[trigger] sealed_text(key, nonce, plaintext)
}

/// The fields of a record.
pub open spec fn envelope_fields(text: Seq<char>) -> (Seq<char>, Seq<char>) {
    choose|nonce: Seq<char>, ciphertext: Seq<char>|
        is_field_text(nonce) && is_field_text(ciphertext) && text == #[trigger] envelope_text(
            nonce,
            ciphertext,
        )
}

/// Whether `text` is the base64 text of some bytes.
pub open spec fn is_base64_text(text: Seq<char>) -> bool {
    exists|bytes: Seq<u8>| #[trigger] base64_text(bytes) == text
}

/// The bytes of which `text` is the base64 text.
pub open spec fn base64_bytes(text: Seq<char>) -> Seq<u8> {
    choose|bytes: Seq<u8>| #[trigger] base64_text(bytes) == text
}

/// Whether `sealed` is what the cipher makes of some plaintext under `key`
/// and `nonce`.
pub open spec fn is_sealed(key: Seq<u8>, nonce: Seq<u8>, sealed: Seq<u8>) -> bool {
    exists|plaintext: Seq<u8>|
        plaintext.len() <= MAX_PLAINTEXT_LEN && #[trigger] aes256_gcm_seal(key, nonce, plaintext)
            == sealed
}

/// Why a text that opens to nothing is refused: the first check that it
/// fails, in the order in which opening makes them.
pub open spec fn refusal(key: Seq<u8>, text: Seq<char>) -> EncryptionSubcategory {
    let (nonce_text, sealed_text) = envelope_fields(text);
    if !is_envelope_text(text) {
        EncryptionSubcategory::DeserializationFailed
    } else if !is_base64_text(nonce_text) || !is_base64_text(sealed_text) {
        EncryptionSubcategory::Base64DecodeFailed
    } else if base64_bytes(nonce_text).len() != NONCE_LEN {
        EncryptionSubcategory::InvalidFormat
    } else if !is_sealed(key, base64_bytes(nonce_text), base64_bytes(sealed_text)) {
        EncryptionSubcategory::DecryptionFailed
    } else {
        EncryptionSubcategory::Utf8DecodeFailed
    }
}

/// Whether `error` reports an encryption failure of the given kind.
pub open spec fn is_failure(error: AppError, kind: EncryptionSubcategory) -> bool {
    error.category == ErrorCategory::Encryption(kind) && error.severity == ErrorSeverity::Error
}

/// Base64 text can stand in a field of a record.
proof fn lemma_base64_text_is_field_text(bytes: Seq<u8>)
    ensures
        is_field_text(base64_text(bytes)),
{
    lemma_base64_text_chars(bytes);
    let text = base64_text(bytes);
    assert forall|i: int| 0 <= i < text.len() implies is_field_char(#[trigger] text[i]) by {
        assert(is_base64_char(text[i]));
    }
}

/// What the record of a sealed plaintext is made of: whoever reads it finds
/// the nonce and the ciphertext that went in.
proof fn lemma_sealed_text_fields(key: Seq<u8>, nonce: Seq<u8>, plaintext: Seq<char>)
    ensures
        ({
            let text = sealed_text(key, nonce, plaintext);
            let sealed = aes256_gcm_seal(key, nonce, encode_utf8(plaintext));
            &&& is_envelope_text(text)
            &&& envelope_fields(text) == (base64_text(nonce), base64_text(sealed))
            &&& is_base64_text(base64_text(nonce))
            &&& is_base64_text(base64_text(sealed))
            &&& base64_bytes(base64_text(nonce)) == nonce
            &&& base64_bytes(base64_text(sealed)) == sealed
        }),
{
    let text = sealed_text(key, nonce, plaintext);
    let sealed = aes256_gcm_seal(key, nonce, encode_utf8(plaintext));
    lemma_base64_text_is_field_text(nonce);
    lemma_base64_text_is_field_text(sealed);
    assert(text == envelope_text(base64_text(nonce), base64_text(sealed)));
    let (n, c) = envelope_fields(text);
    lemma_envelope_text_injective(n, c, base64_text(nonce), base64_text(sealed));
    lemma_base64_text_injective(base64_bytes(base64_text(nonce)), nonce);
    lemma_base64_text_injective(base64_bytes(base64_text(sealed)), sealed);
}

/// The nonce shows in the record: sealed under two nonces, a plaintext
/// gives two records.
pub proof fn lemma_nonce_shows_in_record(
    key: Seq<u8>,
    nonce: Seq<u8>,
    other_nonce: Seq<u8>,
    plaintext: Seq<char>,
)
    requires
        nonce != other_nonce,
    ensures
        sealed_text(key, nonce, plaintext) != sealed_text(key, other_nonce, plaintext),
{
    lemma_sealed_text_fields(key, nonce, plaintext);
    lemma_sealed_text_fields(key, other_nonce, plaintext);
    if base64_text(nonce) == base64_text(other_nonce) {
        lemma_base64_text_injective(nonce, other_nonce);
    }
}

fn failed(message: String, kind: EncryptionSubcategory) -> (error: AppError)
    ensures
        is_failure(error, kind),
{
    AppError::new(message, ErrorCategory::Encryption(kind), ErrorSeverity::Error)
}

/// Seals `value` under `key` with the nonce that the caller hands in, and
/// gives the record of the envelope. A nonce is to be used for one
/// encryption only; [`encrypt_string`] draws a fresh one for each call.
pub fn encrypt_with_nonce(key: &MasterKey, nonce: &[u8], value: &str) -> (result: AppResult<
    String,
>)
    ensures
        nonce@.len() == NONCE_LEN && is_sealable(value@) ==> (result matches Ok(text) && text@
            == sealed_text(key@, nonce@, value@)),
        !(nonce@.len() == NONCE_LEN && is_sealable(value@)) ==> (result matches Err(error)
            && is_failure(error, EncryptionSubcategory::EncryptionFailed)),
{
    let plaintext = value.as_bytes();
    if nonce.len() != NONCE_LEN {
        return Err(
            failed(
                "a nonce has twelve bytes".to_owned(),
                EncryptionSubcategory::EncryptionFailed,
            ),
        );
    }
    if plaintext.len() as u64 > MAX_PLAINTEXT_LEN || plaintext.len() > (isize::MAX as usize / 4)
        * 3 - TAG_LEN {
        return Err(
            failed(
                "the value is too long to be encrypted".to_owned(),
                EncryptionSubcategory::EncryptionFailed,
            ),
        );
    }
    match seal(key.as_bytes(), nonce, plaintext) {
        Ok(sealed) => {
            let envelope = Envelope {
                nonce: encode_base64(nonce),
                ciphertext: encode_base64(sealed.as_slice()),
            };
            Ok(envelope.to_text())
        },
        Err(e) => Err(failed(e.to_string(), EncryptionSubcategory::EncryptionFailed)),
    }
}

/// Encrypt a string value: seals it under the provider's key with a fresh
/// random nonce, and gives the record of the envelope.
pub fn encrypt_string(provider: &KeyProvider, value: &str) -> (result: AppResult<String>)
    ensures
        provider.key() is None ==> (result matches Err(error) && is_failure(
            error,
            EncryptionSubcategory::KeyNotInitialized,
        )),
        provider.key() is Some && !is_sealable(value@) ==> (result matches Err(error)
            && is_failure(error, EncryptionSubcategory::EncryptionFailed)),
        provider.key() is Some ==> (result matches Ok(text) ==> opens_to(
            provider.key()->0,
            text@,
            value@,
        )),
        provider.key() is Some ==> (result matches Err(error) ==> is_failure(
            error,
            EncryptionSubcategory::EncryptionFailed,
        )),
{
    let key = match provider.get() {
        Some(key) => key,
        None => {
            return Err(
                failed(
                    "the encryption key is not initialized".to_owned(),
                    EncryptionSubcategory::KeyNotInitialized,
                ),
            );
        },
    };
    match random_bytes(NONCE_LEN) {
        Ok(nonce) => encrypt_with_nonce(key, nonce.as_slice(), value),
        Err(e) => Err(failed(e.to_string(), EncryptionSubcategory::EncryptionFailed)),
    }
}

/// Opens the record `text` under `key`. Succeeds exactly on what sealing
/// under this key gives, and gives back the string that was sealed.
pub fn decrypt_with_key(key: &MasterKey, text: &str) -> (result: AppResult<String>)
    ensures
        result matches Ok(value) ==> opens_to(key@, text@, value@),
        forall|value: Seq<char>| #[trigger]
            opens_to(key@, text@, value) ==> (result matches Ok(opened) && opened@ == value),
        result matches Err(error) ==> is_failure(error, refusal(key@, text@)),
{
    proof {
        assert forall|value: Seq<char>, nonce: Seq<u8>| text@ == sealed_text(key@, nonce, value)
            implies {
            let sealed = aes256_gcm_seal(key@, nonce, encode_utf8(value));
            &&& is_envelope_text(text@)
            &&& envelope_fields(text@) == (base64_text(nonce), base64_text(sealed))
            &&& base64_bytes(base64_text(nonce)) == nonce
            &&& base64_bytes(base64_text(sealed)) == sealed
        } by {
            lemma_sealed_text_fields(key@, nonce, value);
        }
    }
    let envelope = match Envelope::parse(text) {
        Some(envelope) => envelope,
        None => {
            return Err(
                failed(
                    "the text is not the record of an envelope".to_owned(),
                    EncryptionSubcategory::DeserializationFailed,
                ),
            );
        },
    };
    proof {
        let (n, c) = envelope_fields(text@);
        lemma_envelope_text_injective(n, c, envelope.nonce@, envelope.ciphertext@);
    }
    let nonce = match decode_base64(envelope.nonce.as_str()) {
        Ok(nonce) => nonce,
        Err(e) => {
            return Err(failed(e.to_string(), EncryptionSubcategory::Base64DecodeFailed));
        },
    };
    let sealed = match decode_base64(envelope.ciphertext.as_str()) {
        Ok(sealed) => sealed,
        Err(e) => {
            return Err(failed(e.to_string(), EncryptionSubcategory::Base64DecodeFailed));
        },
    };
    proof {
        lemma_base64_text_injective(base64_bytes(envelope.nonce@), nonce@);
        lemma_base64_text_injective(base64_bytes(envelope.ciphertext@), sealed@);
    }
    if nonce.len() != NONCE_LEN {
        return Err(
            failed(
                "the nonce of the envelope has not twelve bytes".to_owned(),
                EncryptionSubcategory::InvalidFormat,
            ),
        );
    }
    let plaintext = match unseal(key.as_bytes(), nonce.as_slice(), sealed.as_slice()) {
        Ok(plaintext) => plaintext,
        Err(e) => {
            return Err(failed(e.to_string(), EncryptionSubcategory::DecryptionFailed));
        },
    };
    if plaintext.len() as u64 > MAX_PLAINTEXT_LEN {
        return Err(
            failed(
                "the envelope holds more than the cipher encrypts".to_owned(),
                EncryptionSubcategory::DecryptionFailed,
            ),
        );
    }
    let ghost opened = plaintext@;
    match string_from_utf8(plaintext) {
        Ok(value) => {
            proof {
                decode_utf8_encode_utf8(opened);
                assert(text@ == sealed_text(key@, nonce@, value@));
                assert forall|other: Seq<char>| #[trigger]
                    opens_to(key@, text@, other) implies other == value@ by {
                    encode_utf8_decode_utf8(other);
                }
            }
            Ok(value)
        },
        Err(e) => {
            proof {
                assert forall|other: Seq<char>| !#[trigger] opens_to(key@, text@, other) by {
                    encode_utf8_valid_utf8(other);
                }
            }
            Err(failed(e.to_string(), EncryptionSubcategory::Utf8DecodeFailed))
        },
    }
}

/// Decrypt a string value: opens the record `text` under the provider's
/// key.
pub fn decrypt_string(provider: &KeyProvider, text: &str) -> (result: AppResult<String>)
    ensures
        provider.key() is None ==> (result matches Err(error) && is_failure(
            error,
            EncryptionSubcategory::KeyNotInitialized,
        )),
        provider.key() is Some ==> (result matches Ok(value) ==> opens_to(
            provider.key()->0,
            text@,
            value@,
        )),
        provider.key() is Some ==> forall|value: Seq<char>| #[trigger]
            opens_to(provider.key()->0, text@, value) ==> (result matches Ok(opened) && opened@
                == value),
        provider.key() is Some ==> (result matches Err(error) ==> is_failure(
            error,
            refusal(provider.key()->0, text@),
        )),
{
    match provider.get() {
        Some(key) => decrypt_with_key(key, text),
        None => Err(
            failed(
                "the encryption key is not initialized".to_owned(),
                EncryptionSubcategory::KeyNotInitialized,
            ),
        ),
    }
}

} // verus!
