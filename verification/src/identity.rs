use vstd::prelude::*;

verus! {

/// Which on-disk vault layout the caller believes the database uses.
#[derive(Clone, Copy, Debug, PartialEq, Eq, Structural)]
pub enum VaultFormatVersion {
    V5,
    V6,
}

/// The single row of the vault's identity table, as plain values.
///
/// The column the database calls `hash` is carried here as
/// `hmac_key_material`: despite its name it is the secret keying material
/// for the PBKDF2 pseudo-random function, not a digest to verify, so it is
/// held as raw bytes and never re-hashed.
#[derive(Debug)]
pub struct IdentityMetadata {
    pub id: i32,
    pub version: i32,
    pub signature: String,
    pub sync_uuid: String,
    pub hmac_key_material: Vec<u8>,
    /// Opaque metadata blob; a well-formed one holds at least 48 bytes, with
    /// the CBC IV at bytes 16..32 and the PBKDF2 salt at bytes 32..48.
    pub info: Vec<u8>,
}

/// A session's symmetric key material: a 32-byte AES-256 key and a 16-byte
/// CBC initialization vector, derived once per vault and reused for every
/// record.
#[derive(Debug)]
pub struct DerivedKeyMaterial {
    pub key: Vec<u8>,
    pub iv: Vec<u8>,
}

impl DerivedKeyMaterial {
    /// The shape every derived value has: 32 key bytes and 16 IV bytes.
    pub open spec fn wf(&self) -> bool {
        self.key@.len() == 32 && self.iv@.len() == 16
    }
}

} // verus!
