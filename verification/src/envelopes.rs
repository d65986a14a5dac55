use vstd::prelude::*;

verus! {

/// Envelope for an authenticated-encryption result.
///
/// Produced once by `encrypt`, immutable afterwards, consumed by `decrypt`.
/// `kid` and `version` identify the key that produced it; `aad`, when
/// present, was authenticated but not encrypted.
#[derive(Clone, Debug)]
pub struct AEADCiphertext {
    /// Identifier of the key that produced this ciphertext.
    pub kid: String,
    /// Version of that key.
    pub version: u32,
    /// Algorithm identifier string.
    pub alg: String,
    /// Nonce the ciphertext was produced under; exactly 12 bytes.
    pub nonce: Vec<u8>,
    /// Ciphertext bytes; as long as the plaintext was.
    pub ct: Vec<u8>,
    /// Authentication tag; exactly 16 bytes.
    pub tag: Vec<u8>,
    /// Associated data bound into authentication, where any was given.
    pub aad: Option<Vec<u8>>,
}

/// A stored envelope is well formed when its nonce and tag have the lengths
/// the algorithm fixes; anything else is malformed and is rejected at
/// decrypt time.
pub open spec fn envelope_wf(env: AEADCiphertext) -> bool {
    &&& env.nonce@.len() == 12
    &&& env.tag@.len() == 16
}

impl AEADCiphertext {
    /// Builds an envelope from its parts.
    pub fn new(
        kid: String,
        version: u32,
        alg: String,
        nonce: Vec<u8>,
        ct: Vec<u8>,
        tag: Vec<u8>,
        aad: Option<Vec<u8>>,
    ) -> (r: AEADCiphertext)
        ensures
            r == (AEADCiphertext { kid, version, alg, nonce, ct, tag, aad }),
    {
        AEADCiphertext { kid, version, alg, nonce, ct, tag, aad }
    }
}

/// Envelope for a key-encapsulation result: an encrypted data-encryption
/// key bound to the identity of the key-encryption key that wrapped it.
///
/// Produced by `wrap`, consumed by `unwrap`, opaque to everything else.
#[derive(Clone, Debug)]
pub struct WrappedKey {
    /// Identifier of the wrapping key.
    pub kek_kid: String,
    /// Version of the wrapping key.
    pub kek_version: u32,
    /// Algorithm identifier of the wrapping scheme.
    pub wrap_alg: String,
    /// The encapsulated bytes.
    pub wrapped: Vec<u8>,
}

impl WrappedKey {
    /// Builds a wrapped-key envelope from its parts.
    pub fn new(kek_kid: String, kek_version: u32, wrap_alg: String, wrapped: Vec<u8>) -> (r:
        WrappedKey)
        ensures
            r == (WrappedKey { kek_kid, kek_version, wrap_alg, wrapped }),
    {
        WrappedKey { kek_kid, kek_version, wrap_alg, wrapped }
    }
}

} // verus!
