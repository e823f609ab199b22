use vstd::prelude::*;
use crate::cipher::decrypt_bytes_spec;
use crate::cipher::decrypt_record_bytes;
use crate::errors::DecryptionError;
use crate::identity::DerivedKeyMaterial;

verus! {

#[verifier::external_type_specification]
#[verifier::external_body]
pub struct ExJsonValue(serde_json::Value);

#[verifier::external_type_specification]
#[verifier::external_body]
pub struct ExJsonError(serde_json::Error);

/// Whether `bytes` are UTF-8 text holding exactly one well-formed
/// structured value: the schema-free object/array/scalar tree a decrypted
/// record is expected to carry. Success is a function of the bytes alone.
pub uninterp spec fn parses_as_record(bytes: Seq<u8>) -> bool;

/// Relies on serde_json::from_slice::<serde_json::Value>: it succeeds
/// exactly on bytes holding one well-formed value, and whether it succeeds
/// depends on the bytes alone.
#[verifier::external_body]
fn parse_json_tree(bytes: &[u8]) -> (r: Result<serde_json::Value, serde_json::Error>)
    ensures
        r is Ok <==> parses_as_record(bytes@),
{
    serde_json::from_slice(bytes)
}

/// Parses decrypted plaintext bytes as the structured record tree. The tree
/// itself is opaque to this layer: it is handed back unchanged, and its
/// domain fields are the caller's concern.
pub fn parse_record(plaintext: &[u8]) -> (r: Result<serde_json::Value, DecryptionError>)
    ensures
        r is Ok <==> parses_as_record(plaintext@),
        r matches Err(e) ==> e == DecryptionError::PayloadFormatError,
{
    match parse_json_tree(plaintext) {
        Ok(tree) => Ok(tree),
        Err(_) => Err(DecryptionError::PayloadFormatError),
    }
}

/// Whether the whole per-record pipeline succeeds on `payload` under the
/// given key material: the payload is a non-empty whole number of blocks,
/// its decryption ends in valid padding, and the plaintext parses.
pub open spec fn record_decrypts(key: Seq<u8>, iv: Seq<u8>, payload: Seq<u8>) -> bool {
    decrypt_bytes_spec(key, iv, payload) matches Ok(plain) && parses_as_record(plain)
}

/// The error the per-record pipeline reports on `payload`, when it fails:
/// the decryption stage's own error, or `PayloadFormatError` once only the
/// parse is left to fail.
pub open spec fn record_error(key: Seq<u8>, iv: Seq<u8>, payload: Seq<u8>) -> DecryptionError {
    match decrypt_bytes_spec(key, iv, payload) {
        Ok(_) => DecryptionError::PayloadFormatError,
        Err(e) => e,
    }
}

/// Decrypts one record's payload and parses the plaintext into the
/// structured record tree: the whole per-record pipeline, in two explicit
/// fallible stages, so a systemic failure (bad padding under a wrong key)
/// stays distinguishable from a record-specific one (one bad payload).
pub fn decrypt(payload: &[u8], key_material: &DerivedKeyMaterial) -> (r: Result<serde_json::Value, DecryptionError>)
    requires
        key_material.wf(),
    ensures
        r is Ok <==> record_decrypts(key_material.key@, key_material.iv@, payload@),
        r matches Err(e) ==> e == record_error(key_material.key@, key_material.iv@, payload@),
{
    match decrypt_record_bytes(payload, key_material) {
        Ok(plain) => parse_record(plain.as_slice()),
        Err(e) => Err(e),
    }
}

/// Decrypts a batch of record payloads, one result per payload, in the
/// given order: the pipeline never reorders, drops or deduplicates records,
/// and a failed record is reported in place, never swallowed.
pub fn decrypt_records(payloads: &Vec<Vec<u8>>, key_material: &DerivedKeyMaterial) -> (out: Vec<Result<serde_json::Value, DecryptionError>>)
    requires
        key_material.wf(),
    ensures
        out@.len() == payloads@.len(),
        forall|i: int| 0 <= i < out@.len() ==> ((out@[i] is Ok)
            <==> record_decrypts(key_material.key@, key_material.iv@, payloads@[i]@)),
        forall|i: int| 0 <= i < out@.len() ==> (#[trigger] out@[i] matches Err(e)
            ==> e == record_error(key_material.key@, key_material.iv@, payloads@[i]@)),
{
    let mut out: Vec<Result<serde_json::Value, DecryptionError>> = Vec::new();
    let mut idx: usize = 0;
    while idx < payloads.len()
        invariant
            key_material.wf(),
            0 <= idx <= payloads@.len(),
            out@.len() == idx,
            forall|i: int| 0 <= i < out@.len() ==> ((out@[i] is Ok)
                <==> record_decrypts(key_material.key@, key_material.iv@, payloads@[i]@)),
            forall|i: int| 0 <= i < out@.len() ==> (#[trigger] out@[i] matches Err(e)
                ==> e == record_error(key_material.key@, key_material.iv@, payloads@[i]@)),
        decreases payloads@.len() - idx,
    {
        let r = decrypt(payloads[idx].as_slice(), key_material);
        out.push(r);
        idx = idx + 1;
    }
    out
}

} // verus!
