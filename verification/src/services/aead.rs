//! AES-256-GCM, as the `aes-gcm` crate computes it.
//!
//! The cipher is deterministic in its key, nonce and plaintext, so its
//! output has a name here, [`aes256_gcm_seal`], over which the contracts of
//! the envelope cipher are stated.

use vstd::prelude::*;
use aes_gcm::aead::{Aead, KeyInit};

verus! {

/// Length of a key, in bytes.
pub const KEY_LEN: usize = 32;

/// Length of a nonce, in bytes.
pub const NONCE_LEN: usize = 12;

/// Length of the authentication tag that ends every ciphertext, in bytes.
pub const TAG_LEN: usize = 16;

/// The longest plaintext that the cipher encrypts, in bytes.
pub const MAX_PLAINTEXT_LEN: u64 = 68_719_476_736;

/// What AES-256-GCM makes of `plaintext` under `key` and `nonce`, with no
/// associated data: the encrypted bytes followed by the authentication tag.
pub uninterp spec fn aes256_gcm_seal(key: Seq<u8>, nonce: Seq<u8>, plaintext: Seq<u8>) -> Seq<u8>;

/// `aes_gcm::Error`: the cipher's one error, which says nothing of its
/// cause.
#[verifier::external_type_specification]
#[verifier::external_body]
pub struct ExAeadError(aes_gcm::Error);

/// `Aead::encrypt` of `aes_gcm::Aes256Gcm`: fails only on a plaintext longer
/// than the cipher's limit; the ciphertext is the plaintext's length plus the
/// tag. Key and nonce are taken by `from_slice`, which panics on another
/// length, and the ciphertext's buffer cannot be longer than a buffer can be:
/// `requires` leaves those out.
#[verifier::external_body]
pub(crate) fn seal(key: &[u8], nonce: &[u8], plaintext: &[u8]) -> (result: Result<
    Vec<u8>,
    aes_gcm::Error,
>)
    requires
        key@.len() == KEY_LEN,
        nonce@.len() == NONCE_LEN,
        plaintext@.len() + TAG_LEN <= isize::MAX,
    ensures
        plaintext@.len() <= MAX_PLAINTEXT_LEN ==> result is Ok,
        result matches Ok(sealed) ==> sealed@ == aes256_gcm_seal(key@, nonce@, plaintext@),
        result matches Ok(sealed) ==> sealed@.len() == plaintext@.len() + TAG_LEN,
{
    let cipher = aes_gcm::Aes256Gcm::new(aes_gcm::Key::<aes_gcm::Aes256Gcm>::from_slice(key));
    cipher.encrypt(aes_gcm::Nonce::from_slice(nonce), plaintext)
}

/// `Aead::decrypt` of `aes_gcm::Aes256Gcm`: recomputes the tag over the
/// ciphertext and compares; on a match it undoes the encryption. So it
/// succeeds on what `encrypt` makes under the same key and nonce, and on
/// nothing else that `encrypt` could take back; it gives the plaintext that
/// was encrypted.
#[verifier::external_body]
pub(crate) fn unseal(key: &[u8], nonce: &[u8], sealed: &[u8]) -> (result: Result<
    Vec<u8>,
    aes_gcm::Error,
>)
    requires
        key@.len() == KEY_LEN,
        nonce@.len() == NONCE_LEN,
    ensures
        result matches Ok(plaintext) ==> plaintext@.len() + TAG_LEN == sealed@.len(),
        result matches Ok(plaintext) ==> (plaintext@.len() <= MAX_PLAINTEXT_LEN
            ==> aes256_gcm_seal(key@, nonce@, plaintext@) == sealed@),
        result is Ok || forall|plaintext: Seq<u8>|
            plaintext.len() <= MAX_PLAINTEXT_LEN ==> #[trigger] aes256_gcm_seal(
                key@,
                nonce@,
                plaintext,
            ) != sealed@,
        result matches Ok(opened) ==> forall|plaintext: Seq<u8>|
            plaintext.len() <= MAX_PLAINTEXT_LEN && #[trigger] aes256_gcm_seal(
                key@,
                nonce@,
                plaintext,
            ) == sealed@ ==> opened@ == plaintext,
{
    let cipher = aes_gcm::Aes256Gcm::new(aes_gcm::Key::<aes_gcm::Aes256Gcm>::from_slice(key));
    cipher.decrypt(aes_gcm::Nonce::from_slice(nonce), sealed)
}

} // verus!
