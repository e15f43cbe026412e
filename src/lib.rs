//! Retrieval and transit decryption of vault secrets.
//!
//! A key is derived from a shared credential and the current time bucket, and
//! a base64, nonce-prefixed AES-256-GCM envelope is opened with it.

pub mod error;
pub mod key;
pub mod transit;
pub mod request;

pub use error::SecretError;
pub use key::derive_key;
pub use request::{auth_headers, create_request_materials, secret_from_detail, secret_from_detail_at, Config, Detail};
pub use transit::{transit_decrypt, transit_decrypt_at, transit_decrypt_with_clock};
