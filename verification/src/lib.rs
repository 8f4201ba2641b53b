//! Credential protection for locally stored database connections.
//!
//! The crate holds the key custody rules, the authenticated-encryption
//! envelope that protects each secret field, and the error taxonomy that
//! both report through.

pub mod error_subcategories;
pub mod error;
pub mod services;
