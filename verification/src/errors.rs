use vstd::prelude::*;

verus! {

/// Why no key could be derived for a vault session. Both variants are fatal
/// to the session: without key material no record can be decrypted.
#[derive(Clone, Copy, Debug, PartialEq, Eq, Structural)]
pub enum KeyDerivationError {
    /// The identity row's `info` blob is too short to hold an IV and a salt.
    MalformedIdentity,
    /// The vault uses a data-encryption scheme this library does not
    /// implement; refusing it beats silently decrypting garbage.
    UnsupportedFormatVersion,
}

/// Why decrypting one record's payload failed. All variants are per-record:
/// the caller decides whether to skip the record or abort the run.
#[derive(Clone, Copy, Debug, PartialEq, Eq, Structural)]
pub enum DecryptionError {
    /// The ciphertext is empty or not a whole number of cipher blocks.
    InvalidCiphertextLength,
    /// The decrypted bytes do not end in valid PKCS#7 padding; seen on every
    /// record, this is the signature of a wrong password or format version.
    PaddingError,
    /// The unpadded plaintext is not a well-formed structured value.
    PayloadFormatError,
}

} // verus!
