//! Verified core of an Enpass vault reader.
//!
//! Given the raw bytes of a vault's identity row and of each record's
//! encrypted payload, this library derives the session's AES-256 key and
//! CBC initialization vector, decrypts record payloads, strips their
//! PKCS#7 padding, and parses the plaintext into a structured record tree.
//! Opening the encrypted database container and iterating its rows is the
//! caller's concern; this crate works on plain in-memory bytes.

pub mod cipher;
pub mod errors;
pub mod identity;
pub mod kdf;
pub mod padding;
pub mod record;

