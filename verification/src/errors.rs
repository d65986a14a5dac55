use vstd::prelude::*;

verus! {

/// Closed set of failure kinds for the cryptographic engine.
///
/// Every fallible operation reports one of these kinds; callers match on the
/// variant rather than on message text.
#[derive(Clone, Copy, Debug, PartialEq, Eq, Structural)]
pub enum CryptoError {
    /// Key material is missing or has the wrong length.
    InvalidKey,
    /// A caller-supplied nonce has the wrong length.
    InvalidNonce,
    /// Decryption could not authenticate the ciphertext, tag or AAD.
    AuthenticationFailure,
    /// The cipher or random-number backend failed; environmental, not
    /// caused by the inputs.
    CryptoBackendFailure,
    /// Key unwrapping could not verify integrity or authenticity.
    UnwrapFailure,
}

} // verus!
