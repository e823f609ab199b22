use vstd::prelude::*;
use crypto::symmetriccipher::Decryptor;
use crypto::symmetriccipher::Encryptor;
use crate::errors::DecryptionError;
use crate::identity::DerivedKeyMaterial;
use crate::padding::apply_pkcs7_padding;
use crate::padding::lemma_pkcs7_pad_len;
use crate::padding::lemma_pkcs7_round_trip;
use crate::padding::pkcs7_pad;
use crate::padding::pkcs7_unpad;
use crate::padding::strip_pkcs7_padding;

verus! {

/// AES-256-CBC encryption of a whole number of 16-byte blocks under `key`
/// and `iv`, with no padding involved. Named rather than spelled out: the
/// value is a pure function of these arguments, and nothing here restates
/// the cipher.
pub uninterp spec fn aes256_cbc_encrypt_blocks(key: Seq<u8>, iv: Seq<u8>, plaintext: Seq<u8>) -> Seq<u8>;

/// AES-256-CBC decryption of a whole number of 16-byte blocks under `key`
/// and `iv`, with no padding involved.
pub uninterp spec fn aes256_cbc_decrypt_blocks(key: Seq<u8>, iv: Seq<u8>, ciphertext: Seq<u8>) -> Seq<u8>;

/// Relies on crypto::aes::cbc_encryptor with crypto::blockmodes::NoPadding:
/// on a whole number of blocks it writes one output byte per input byte,
/// the output is a function of key, IV and input alone, and cbc_decryptor
/// under the same key and IV inverts it block for block. The key length
/// must match AES-256 and the IV the block size, or the construction
/// panics.
#[verifier::external_body]
fn cbc_encrypt_raw(key: &[u8], iv: &[u8], plaintext: &[u8]) -> (out: Vec<u8>)
    requires
        key@.len() == 32,
        iv@.len() == 16,
        plaintext@.len() % 16 == 0,
    ensures
        out@ == aes256_cbc_encrypt_blocks(key@, iv@, plaintext@),
        out@.len() == plaintext@.len(),
        aes256_cbc_decrypt_blocks(key@, iv@, out@) == plaintext@,
{
    let mut enc = crypto::aes::cbc_encryptor(
        crypto::aes::KeySize::KeySize256, key, iv, crypto::blockmodes::NoPadding);
    let mut out = vec![0u8; plaintext.len()];
    let mut read = crypto::buffer::RefReadBuffer::new(plaintext);
    let mut write = crypto::buffer::RefWriteBuffer::new(&mut out);
    enc.encrypt(&mut read, &mut write, true).expect("whole blocks, no padding");
    out
}

/// Relies on crypto::aes::cbc_decryptor with crypto::blockmodes::NoPadding:
/// on a whole number of blocks it writes one output byte per input byte and
/// the output is a function of key, IV and input alone. Same panic
/// conditions on key and IV length as encryption.
#[verifier::external_body]
fn cbc_decrypt_raw(key: &[u8], iv: &[u8], ciphertext: &[u8]) -> (out: Vec<u8>)
    requires
        key@.len() == 32,
        iv@.len() == 16,
        ciphertext@.len() % 16 == 0,
    ensures
        out@ == aes256_cbc_decrypt_blocks(key@, iv@, ciphertext@),
        out@.len() == ciphertext@.len(),
{
    let mut dec = crypto::aes::cbc_decryptor(
        crypto::aes::KeySize::KeySize256, key, iv, crypto::blockmodes::NoPadding);
    let mut out = vec![0u8; ciphertext.len()];
    let mut read = crypto::buffer::RefReadBuffer::new(ciphertext);
    let mut write = crypto::buffer::RefWriteBuffer::new(&mut out);
    dec.decrypt(&mut read, &mut write, true).expect("whole blocks, no padding");
    out
}

/// What decrypting one record's payload yields: the exact error for an
/// ill-sized ciphertext or bad padding, else the unpadded CBC decryption.
pub open spec fn decrypt_bytes_spec(key: Seq<u8>, iv: Seq<u8>, payload: Seq<u8>) -> Result<Seq<u8>, DecryptionError> {
    if payload.len() == 0 || payload.len() % 16 != 0 {
        Err(DecryptionError::InvalidCiphertextLength)
    } else {
        match pkcs7_unpad(aes256_cbc_decrypt_blocks(key, iv, payload)) {
            Some(plain) => Ok(plain),
            None => Err(DecryptionError::PaddingError),
        }
    }
}

/// Decrypts one record's payload with the session key material and strips
/// its PKCS#7 padding. The length check comes first: an ill-sized payload
/// never reaches the cipher. A padding failure is reported, never swallowed:
/// it is the caller's primary signal of a wrong password or format version.
pub fn decrypt_record_bytes(payload: &[u8], key_material: &DerivedKeyMaterial) -> (r: Result<Vec<u8>, DecryptionError>)
    requires
        key_material.wf(),
    ensures
        match r {
            Ok(plain) => decrypt_bytes_spec(key_material.key@, key_material.iv@, payload@)
                == Ok::<Seq<u8>, DecryptionError>(plain@),
            Err(e) => decrypt_bytes_spec(key_material.key@, key_material.iv@, payload@)
                == Err::<Seq<u8>, DecryptionError>(e),
        },
{
    let n = payload.len();
    if n == 0 || n % 16 != 0 {
        return Err(DecryptionError::InvalidCiphertextLength);
    }
    let decrypted = cbc_decrypt_raw(key_material.key.as_slice(), key_material.iv.as_slice(), payload);
    match strip_pkcs7_padding(decrypted.as_slice()) {
        Some(plain) => Ok(plain),
        None => Err(DecryptionError::PaddingError),
    }
}

/// Encrypts plaintext bytes the way vault records are stored: PKCS#7
/// padding, then AES-256-CBC. The second clause is the round trip law:
/// decrypting the result with the same key material yields exactly the
/// original bytes, for every plaintext.
pub fn encrypt_record_bytes(plaintext: &[u8], key_material: &DerivedKeyMaterial) -> (out: Vec<u8>)
    requires
        key_material.wf(),
        plaintext@.len() + 16 <= usize::MAX,
    ensures
        out@ == aes256_cbc_encrypt_blocks(key_material.key@, key_material.iv@, pkcs7_pad(plaintext@)),
        decrypt_bytes_spec(key_material.key@, key_material.iv@, out@)
            == Ok::<Seq<u8>, DecryptionError>(plaintext@),
{
    proof {
        lemma_pkcs7_pad_len(plaintext@);
        lemma_pkcs7_round_trip(plaintext@);
    }
    let padded = apply_pkcs7_padding(plaintext);
    let out = cbc_encrypt_raw(key_material.key.as_slice(), key_material.iv.as_slice(), padded.as_slice());
    out
}

} // verus!
