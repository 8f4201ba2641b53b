//! The credential protection services: key custody, the envelope cipher,
//! and what they stand on.

pub mod aead;
pub mod connections;
pub mod encoding;
pub mod encryption;
pub mod envelope;
pub mod key_management;
pub mod random;
