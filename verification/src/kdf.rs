use vstd::prelude::*;
use vstd::slice::slice_subrange;
use vstd::slice::slice_to_vec;
use crate::errors::KeyDerivationError;
use crate::identity::DerivedKeyMaterial;
use crate::identity::IdentityMetadata;
use crate::identity::VaultFormatVersion;

verus! {

/// The `out_len` bytes that PBKDF2 with HMAC-SHA-256 derives from keying
/// material `key`, salt `salt` and `iterations` rounds. Named rather than
/// spelled out: the value is a pure function of these arguments, fixed by
/// RFC 2898, and nothing here restates the algorithm.
pub uninterp spec fn pbkdf2_hmac_sha256(key: Seq<u8>, salt: Seq<u8>, iterations: u32, out_len: usize) -> Seq<u8>;

/// Relies on crypto::pbkdf2::pbkdf2 driven by crypto::hmac::Hmac over
/// crypto::sha2::Sha256: it fills the whole output buffer with a value that
/// depends on the keying material, salt and iteration count alone. The
/// outside function asserts a positive iteration count, so callers must
/// supply one.
#[verifier::external_body]
fn pbkdf2_hmac_sha256_bytes(key: &[u8], salt: &[u8], iterations: u32, out_len: usize) -> (out: Vec<u8>)
    requires
        1 <= iterations,
    ensures
        out@ == pbkdf2_hmac_sha256(key@, salt@, iterations, out_len),
        out@.len() == out_len,
{
    let mut mac = crypto::hmac::Hmac::new(crypto::sha2::Sha256::new(), key);
    let mut out = vec![0u8; out_len];
    crypto::pbkdf2::pbkdf2(&mut mac, salt, iterations, &mut out);
    out
}

/// The CBC initialization vector a well-formed identity stores: bytes
/// 16..32 of its `info` blob, used directly, not derived further.
pub open spec fn iv_of_info(info: Seq<u8>) -> Seq<u8> {
    info.subrange(16, 32)
}

/// The PBKDF2 salt a well-formed identity stores: bytes 32..48 of `info`.
pub open spec fn salt_of_info(info: Seq<u8>) -> Seq<u8> {
    info.subrange(32, 48)
}

/// The AES-256 key `derive` computes for a version-5 vault: PBKDF2 over the
/// identity's keying material and stored salt, with exactly 2 iterations —
/// a constant of the vault format, distinct from the much larger iteration
/// count the database container itself is unlocked with.
pub open spec fn derived_key(hmac_key_material: Seq<u8>, info: Seq<u8>) -> Seq<u8> {
    pbkdf2_hmac_sha256(hmac_key_material, salt_of_info(info), 2, 32)
}

/// Derives the session's AES-256 key and CBC IV from the vault's identity
/// row. Version-6 vaults are rejected before any cryptographic work: their
/// data-encryption scheme differs, and decrypting them with version-5
/// parameters would silently produce garbage. An `info` blob shorter than
/// 48 bytes cannot hold an IV and a salt and is rejected as malformed.
///
/// The master password is part of the session interface but is not consumed
/// here: it was already spent unlocking the database container.
pub fn derive(
    identity: &IdentityMetadata,
    _master_password: &str,
    vault_format_version: VaultFormatVersion,
) -> (r: Result<DerivedKeyMaterial, KeyDerivationError>)
    ensures
        vault_format_version == VaultFormatVersion::V6
            ==> (r matches Err(e) && e == KeyDerivationError::UnsupportedFormatVersion),
        vault_format_version == VaultFormatVersion::V5 && identity.info@.len() < 48
            ==> (r matches Err(e) && e == KeyDerivationError::MalformedIdentity),
        vault_format_version == VaultFormatVersion::V5 && identity.info@.len() >= 48
            ==> (r matches Ok(km)
                && km.wf()
                && km.key@ == derived_key(identity.hmac_key_material@, identity.info@)
                && km.iv@ == iv_of_info(identity.info@)),
{
    match vault_format_version {
        VaultFormatVersion::V6 => Err(KeyDerivationError::UnsupportedFormatVersion),
        VaultFormatVersion::V5 => {
            if identity.info.len() < 48 {
                Err(KeyDerivationError::MalformedIdentity)
            } else {
                let iv = slice_to_vec(slice_subrange(identity.info.as_slice(), 16, 32));
                let salt = slice_subrange(identity.info.as_slice(), 32, 48);
                let key = pbkdf2_hmac_sha256_bytes(identity.hmac_key_material.as_slice(), salt, 2, 32);
                Ok(DerivedKeyMaterial { key, iv })
            }
        },
    }
}

/// Key derivation is deterministic: two identities that agree on the keying
/// material and the `info` blob yield the same key bytes and the same IV,
/// however often and wherever `derive` is run.
pub proof fn lemma_derive_deterministic(a: IdentityMetadata, b: IdentityMetadata)
    requires
        a.hmac_key_material@ == b.hmac_key_material@,
        a.info@ == b.info@,
    ensures
        derived_key(a.hmac_key_material@, a.info@) == derived_key(b.hmac_key_material@, b.info@),
        iv_of_info(a.info@) == iv_of_info(b.info@),
{
}

} // verus!
