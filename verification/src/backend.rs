use vstd::prelude::*;

use ring::rand::SecureRandom;

verus! {

/// Longest message ChaCha20-Poly1305 seals or opens: 2^32 - 1 blocks of 64
/// bytes, minus the one block spent on the Poly1305 key; ring reports an
/// error for anything longer.
pub const CHACHA_MAX_MSG_LEN: u64 = 274877906880;

/// The bytes ChaCha20-Poly1305 produces for a key, nonce, AAD and
/// plaintext: the ciphertext (as long as the plaintext) followed by the
/// 16-byte tag. The result is a function of the four arguments alone.
pub uninterp spec fn chacha_sealed(
    key: Seq<u8>,
    nonce: Seq<u8>,
    aad: Seq<u8>,
    plaintext: Seq<u8>,
) -> Seq<u8>;

/// Relies on ring's `LessSafeKey::seal_in_place_separate_tag` with
/// `CHACHA20_POLY1305`: it encrypts the buffer in place, returns the 16-byte
/// tag separately, depends only on key, nonce, AAD and plaintext, and fails
/// exactly when the message is longer than the algorithm's limit.
/// `UnboundKey::new` and `Nonce::try_assume_unique_for_key` only reject
/// lengths the `requires` already excludes.
#[verifier::external_body]
pub(crate) fn chacha_seal(key: &[u8], nonce: &[u8], aad: &[u8], plaintext: &[u8]) -> (r: Result<
    (Vec<u8>, Vec<u8>),
    (),
>)
    requires
        key@.len() == 32,
        nonce@.len() == 12,
    ensures
        r is Ok <==> plaintext@.len() <= CHACHA_MAX_MSG_LEN,
        r matches Ok(p) ==> {
            &&& p.0@.len() == plaintext@.len()
            &&& p.1@.len() == 16
            &&& p.0@ + p.1@ == chacha_sealed(key@, nonce@, aad@, plaintext@)
        },
{
    let unbound =
        ring::aead::UnboundKey::new(&ring::aead::CHACHA20_POLY1305, key).map_err(|_| ())?;
    let n = ring::aead::Nonce::try_assume_unique_for_key(nonce).map_err(|_| ())?;
    let mut buf = plaintext.to_vec();
    let tag = ring::aead::LessSafeKey::new(unbound)
        .seal_in_place_separate_tag(n, ring::aead::Aad::from(aad), &mut buf)
        .map_err(|_| ())?;
    Ok((buf, tag.as_ref().to_vec()))
}

/// Relies on ring's `LessSafeKey::open_in_place` with `CHACHA20_POLY1305`:
/// it takes ciphertext followed by tag, authenticates both against the key,
/// nonce and AAD, and on success returns the plaintext, which is 16 bytes
/// shorter than the input. It is the inverse of the seal above: a buffer
/// that is exactly what seal produced for some plaintext under the same
/// key, nonce and AAD is accepted and opens to that plaintext.
#[verifier::external_body]
pub(crate) fn chacha_open(key: &[u8], nonce: &[u8], aad: &[u8], ct_tag: &[u8]) -> (r: Result<
    Vec<u8>,
    (),
>)
    requires
        key@.len() == 32,
        nonce@.len() == 12,
    ensures
        r matches Ok(p) ==> p@.len() + 16 == ct_tag@.len(),
        r is Err ==> forall|pt: Seq<u8>|
            pt.len() + 16 == ct_tag@.len() && pt.len() <= CHACHA_MAX_MSG_LEN ==> ct_tag@
                != #[trigger] chacha_sealed(key@, nonce@, aad@, pt),
        r matches Ok(p) ==> forall|pt: Seq<u8>|
            pt.len() + 16 == ct_tag@.len() && pt.len() <= CHACHA_MAX_MSG_LEN && ct_tag@
                == #[trigger] chacha_sealed(key@, nonce@, aad@, pt) ==> p@ == pt,
{
    let unbound =
        ring::aead::UnboundKey::new(&ring::aead::CHACHA20_POLY1305, key).map_err(|_| ())?;
    let n = ring::aead::Nonce::try_assume_unique_for_key(nonce).map_err(|_| ())?;
    let mut buf = ct_tag.to_vec();
    let pt = ring::aead::LessSafeKey::new(unbound)
        .open_in_place(n, ring::aead::Aad::from(aad), &mut buf)
        .map_err(|_| ())?;
    Ok(pt.to_vec())
}

/// Relies on ring's `SystemRandom::fill`: on success the buffer is filled
/// with cryptographically secure random bytes from the operating system;
/// nothing is promised of their values.
#[verifier::external_body]
pub(crate) fn secure_random_bytes(len: usize) -> (r: Result<Vec<u8>, ()>)
    ensures
        r matches Ok(v) ==> v@.len() == len,
{
    let mut buf = vec![0u8; len];
    let rng = ring::rand::SystemRandom::new();
    rng.fill(&mut buf).map_err(|_| ())?;
    Ok(buf)
}

} // verus!
