use vstd::prelude::*;

use crate::backend::{
    chacha_open, chacha_seal, chacha_sealed, secure_random_bytes, CHACHA_MAX_MSG_LEN,
};
use crate::envelopes::{envelope_wf, AEADCiphertext, WrappedKey};
use crate::errors::CryptoError;
use crate::keys::{key_material_ok, spec_material, KeyRef};
use vstd::slice::slice_to_vec;

verus! {

/// Stateless cryptographic engine: authenticated encryption and key
/// wrapping with ChaCha20-Poly1305, key generation from the system's
/// secure random source, and capability introspection.
pub struct RustCrypto {
    /// Version string of the engine.
    pub version: String,
}

/// The closed set of algorithms the engine implements; `supports` and the
/// envelopes' algorithm strings derive from it.
#[derive(Clone, Copy, Debug, PartialEq, Eq, Structural)]
pub enum Algorithm {
    /// ChaCha20-Poly1305 AEAD: 32-byte key, 12-byte nonce, 16-byte tag.
    ChaCha20Poly1305,
}

impl Algorithm {
    /// The fixed identifier string of this algorithm.
    pub fn identifier(&self) -> (r: String)
        ensures
            r@ == "CHACHA20-POLY1305"@,
    {
        match self {
            Algorithm::ChaCha20Poly1305 => "CHACHA20-POLY1305".to_string(),
        }
    }
}

/// The byte sequence of an optional byte-slice argument, where one was
/// given.
pub open spec fn opt_bytes_view(b: Option<&[u8]>) -> Option<Seq<u8>> {
    match b {
        Some(a) => Some(a@),
        None => None,
    }
}

/// The AAD bytes an optional argument stands for: the bytes given, or the
/// empty sequence.
pub open spec fn aad_bytes_of(aad: Option<&[u8]>) -> Seq<u8> {
    match aad {
        Some(a) => a@,
        None => Seq::empty(),
    }
}

/// The byte sequence of an optional stored byte vector, where one is
/// present.
pub open spec fn opt_vec_view(v: Option<Vec<u8>>) -> Option<Seq<u8>> {
    match v {
        Some(a) => Some(a@),
        None => None,
    }
}

/// The AAD decryption authenticates against: explicitly supplied AAD wins
/// over AAD stored on the envelope; with neither, the AAD is empty.
pub open spec fn effective_aad(explicit: Option<Seq<u8>>, stored: Option<Seq<u8>>) -> Seq<u8> {
    match explicit {
        Some(a) => a,
        None => match stored {
            Some(a) => a,
            None => Seq::empty(),
        },
    }
}

/// `ct` and `tag` are the ciphertext and tag ChaCha20-Poly1305 produces for
/// plaintext `pt` under key material `km`, nonce `nonce` and AAD `aad`.
pub open spec fn is_sealed_pair(
    km: Seq<u8>,
    nonce: Seq<u8>,
    aad: Seq<u8>,
    pt: Seq<u8>,
    ct: Seq<u8>,
    tag: Seq<u8>,
) -> bool {
    &&& ct.len() == pt.len()
    &&& tag.len() == 16
    &&& ct + tag == chacha_sealed(km, nonce, aad, pt)
}

/// What a successful `encrypt` of plaintext `pt` with AAD bytes `aad` under
/// `key` guarantees of the envelope it returns: a well-formed envelope whose
/// ciphertext and tag seal `pt` under the envelope's own nonce, and which
/// stores the AAD exactly when it is non-empty.
pub open spec fn encrypt_output_for(
    key: KeyRef,
    pt: Seq<u8>,
    aad: Seq<u8>,
    env: AEADCiphertext,
) -> bool {
    &&& envelope_wf(env)
    &&& is_sealed_pair(spec_material(key), env.nonce@, aad, pt, env.ct@, env.tag@)
    &&& (env.aad is Some <==> aad.len() > 0)
    &&& (env.aad matches Some(v) ==> v@ == aad)
}

/// The condition under which `decrypt` owes the caller plaintext `pt`: the
/// envelope is well formed and its ciphertext and tag seal `pt` under the
/// key's material, the envelope's nonce, and the effective AAD of the call.
pub open spec fn decrypt_recovers(
    key: KeyRef,
    env: AEADCiphertext,
    aad_param: Option<Seq<u8>>,
    pt: Seq<u8>,
) -> bool {
    &&& envelope_wf(env)
    &&& pt.len() <= CHACHA_MAX_MSG_LEN
    &&& is_sealed_pair(
        spec_material(key),
        env.nonce@,
        effective_aad(aad_param, opt_vec_view(env.aad)),
        pt,
        env.ct@,
        env.tag@,
    )
}

/// `w` encapsulates the data-encryption key `dek` under `kek`: the first 12
/// bytes of the envelope are the nonce, and the remaining 48 are `dek`
/// sealed under the key-encryption key's material with that nonce and empty
/// AAD. Only a holder of the same material can open it.
pub open spec fn wraps(kek: KeyRef, w: WrappedKey, dek: Seq<u8>) -> bool {
    &&& w.wrapped@.len() == 60
    &&& dek.len() == 32
    &&& w.wrapped@.skip(12) == chacha_sealed(
        spec_material(kek),
        w.wrapped@.take(12),
        Seq::empty(),
        dek,
    )
}

impl RustCrypto {
    /// Builds the engine.
    pub fn new() -> (r: Self)
        ensures
            r.version@ == "0.1.0"@,
    {
        RustCrypto { version: "0.1.0".to_string() }
    }

    /// Encrypts `plaintext` under `key` with ChaCha20-Poly1305.
    ///
    /// The key must carry 32 bytes of material and a supplied nonce must be
    /// 12 bytes, else the matching validation error comes back. Without a
    /// supplied nonce the engine draws 12 fresh random bytes, the safe
    /// default against nonce reuse. The AAD is authenticated, not
    /// encrypted, and is echoed on the envelope only when non-empty.
    pub fn encrypt(
        &self,
        key: &KeyRef,
        plaintext: &[u8],
        nonce: Option<&[u8]>,
        aad: Option<&[u8]>,
    ) -> (r: Result<AEADCiphertext, CryptoError>)
        ensures
            r matches Err(CryptoError::InvalidKey) <==> !key_material_ok(*key),
            r matches Err(CryptoError::InvalidNonce) <==> (key_material_ok(*key) && (
            nonce matches Some(n) && n@.len() != 12)),
            r matches Err(e) ==> (e == CryptoError::InvalidKey || e == CryptoError::InvalidNonce
                || e == CryptoError::CryptoBackendFailure),
            (key_material_ok(*key) && (nonce matches Some(n) ==> n@.len() == 12)
                && plaintext@.len() <= CHACHA_MAX_MSG_LEN) ==> (r is Ok || (nonce is None
                && r matches Err(CryptoError::CryptoBackendFailure))),
            r matches Ok(env) ==> {
                &&& key_material_ok(*key)
                &&& env.kid@ == key.kid@
                &&& env.version == key.version
                &&& env.alg@ == "CHACHA20-POLY1305"@
                &&& (nonce matches Some(n) ==> env.nonce@ == n@)
                &&& encrypt_output_for(*key, plaintext@, aad_bytes_of(aad), env)
            },
    {
        let material: &Vec<u8> = match &key.material {
            Some(m) => m,
            None => { return Err(CryptoError::InvalidKey); },
        };
        if material.len() != 32 {
            return Err(CryptoError::InvalidKey);
        }
        let nonce_bytes: Vec<u8> = match nonce {
            Some(n) => {
                if n.len() != 12 {
                    return Err(CryptoError::InvalidNonce);
                }
                slice_to_vec(n)
            },
            None => match secure_random_bytes(12) {
                Ok(v) => v,
                Err(_) => { return Err(CryptoError::CryptoBackendFailure); },
            },
        };
        let aad_bytes: Vec<u8> = match aad {
            Some(a) => slice_to_vec(a),
            None => Vec::new(),
        };
        let (ct, tag) = match chacha_seal(
            material.as_slice(),
            nonce_bytes.as_slice(),
            aad_bytes.as_slice(),
            plaintext,
        ) {
            Ok(p) => p,
            Err(_) => { return Err(CryptoError::CryptoBackendFailure); },
        };
        let stored_aad: Option<Vec<u8>> = if aad_bytes.len() == 0 {
            None
        } else {
            Some(aad_bytes)
        };
        Ok(
            AEADCiphertext {
                kid: key.kid.clone(),
                version: key.version,
                alg: "CHACHA20-POLY1305".to_string(),
                nonce: nonce_bytes,
                ct,
                tag,
                aad: stored_aad,
            },
        )
    }

    /// Decrypts an envelope produced under `key`, authenticating ciphertext,
    /// tag and AAD together.
    ///
    /// Explicitly supplied AAD overrides AAD stored on the envelope; with
    /// neither, the AAD is empty. A malformed envelope, a tampered
    /// ciphertext, tag or AAD, or a wrong key all fail uniformly with
    /// `AuthenticationFailure`: nothing reveals which check failed. What a
    /// genuine encryption produced comes back as exactly the original
    /// plaintext.
    pub fn decrypt(&self, key: &KeyRef, ciphertext: &AEADCiphertext, aad: Option<&[u8]>) -> (r:
        Result<Vec<u8>, CryptoError>)
        ensures
            r matches Err(CryptoError::InvalidKey) <==> !key_material_ok(*key),
            r matches Err(e) ==> (e == CryptoError::InvalidKey
                || e == CryptoError::AuthenticationFailure),
            key_material_ok(*key) && !envelope_wf(*ciphertext) ==> r matches Err(
                CryptoError::AuthenticationFailure,
            ),
            r matches Ok(p) ==> (envelope_wf(*ciphertext) && p@.len() == ciphertext.ct@.len()),
            forall|pt: Seq<u8>|
                key_material_ok(*key) && #[trigger] decrypt_recovers(
                    *key,
                    *ciphertext,
                    opt_bytes_view(aad),
                    pt,
                ) ==> (r matches Ok(p) && p@ == pt),
    {
        let material: &Vec<u8> = match &key.material {
            Some(m) => m,
            None => { return Err(CryptoError::InvalidKey); },
        };
        if material.len() != 32 {
            return Err(CryptoError::InvalidKey);
        }
        if ciphertext.nonce.len() != 12 || ciphertext.tag.len() != 16 {
            return Err(CryptoError::AuthenticationFailure);
        }
        let aad_bytes: Vec<u8> = match aad {
            Some(a) => slice_to_vec(a),
            None => match &ciphertext.aad {
                Some(v) => slice_to_vec(v.as_slice()),
                None => Vec::new(),
            },
        };
        let mut combined: Vec<u8> = slice_to_vec(ciphertext.ct.as_slice());
        combined.extend_from_slice(ciphertext.tag.as_slice());
        let opened = chacha_open(
            material.as_slice(),
            ciphertext.nonce.as_slice(),
            aad_bytes.as_slice(),
            combined.as_slice(),
        );
        proof {
            assert(aad_bytes@ == effective_aad(opt_bytes_view(aad), opt_vec_view(ciphertext.aad)));
            assert forall|pt_s: Seq<u8>|
                key_material_ok(*key) && #[trigger] decrypt_recovers(
                    *key,
                    *ciphertext,
                    opt_bytes_view(aad),
                    pt_s,
                ) implies (opened matches Ok(p) && p@ == pt_s) by {
                assert(combined@ == chacha_sealed(
                    material@,
                    ciphertext.nonce@,
                    aad_bytes@,
                    pt_s,
                ));
                assert(pt_s.len() + 16 == combined@.len());
            };
        }
        match opened {
            Ok(pt) => Ok(pt),
            Err(_) => Err(CryptoError::AuthenticationFailure),
        }
    }

    /// Returns `size` cryptographically secure random bytes; fails only
    /// when the secure random source itself fails, which is environmental
    /// and not retried.
    pub fn generate_key(&self, size: usize) -> (r: Result<Vec<u8>, CryptoError>)
        ensures
            r matches Ok(k) ==> k@.len() == size,
            r matches Err(e) ==> e == CryptoError::CryptoBackendFailure,
    {
        match secure_random_bytes(size) {
            Ok(v) => Ok(v),
            Err(_) => Err(CryptoError::CryptoBackendFailure),
        }
    }

    /// Encapsulates a 32-byte data-encryption key under `kek` by sealing it
    /// with ChaCha20-Poly1305 under a fresh random nonce; the envelope's
    /// algorithm string names the algorithm actually used.
    pub fn wrap(&self, kek: &KeyRef, dek: &[u8]) -> (r: Result<WrappedKey, CryptoError>)
        ensures
            r matches Err(CryptoError::InvalidKey) <==> (!key_material_ok(*kek) || dek@.len()
                != 32),
            r matches Err(e) ==> (e == CryptoError::InvalidKey
                || e == CryptoError::CryptoBackendFailure),
            key_material_ok(*kek) && dek@.len() == 32 ==> (r is Ok || r matches Err(
                CryptoError::CryptoBackendFailure,
            )),
            r matches Ok(w) ==> {
                &&& w.kek_kid@ == kek.kid@
                &&& w.kek_version == kek.version
                &&& w.wrap_alg@ == "CHACHA20-POLY1305"@
                &&& wraps(*kek, w, dek@)
            },
    {
        let material: &Vec<u8> = match &kek.material {
            Some(m) => m,
            None => { return Err(CryptoError::InvalidKey); },
        };
        if material.len() != 32 {
            return Err(CryptoError::InvalidKey);
        }
        if dek.len() != 32 {
            return Err(CryptoError::InvalidKey);
        }
        let nonce: Vec<u8> = match secure_random_bytes(12) {
            Ok(v) => v,
            Err(_) => { return Err(CryptoError::CryptoBackendFailure); },
        };
        let empty_aad: Vec<u8> = Vec::new();
        let (ct, tag) = match chacha_seal(
            material.as_slice(),
            nonce.as_slice(),
            empty_aad.as_slice(),
            dek,
        ) {
            Ok(p) => p,
            Err(_) => { return Err(CryptoError::CryptoBackendFailure); },
        };
        let ghost nonce_view: Seq<u8> = nonce@;
        let mut wrapped_bytes: Vec<u8> = nonce;
        wrapped_bytes.extend_from_slice(ct.as_slice());
        wrapped_bytes.extend_from_slice(tag.as_slice());
        proof {
            assert(wrapped_bytes@.take(12) =~= nonce_view);
            assert(wrapped_bytes@.skip(12) =~= ct@ + tag@);
        }
        Ok(
            WrappedKey {
                kek_kid: kek.kid.clone(),
                kek_version: kek.version,
                wrap_alg: Algorithm::ChaCha20Poly1305.identifier(),
                wrapped: wrapped_bytes,
            },
        )
    }

    /// Opens a wrapped-key envelope produced under `kek` and returns the
    /// 32-byte data-encryption key it encapsulates. A wrong key, a
    /// corrupted envelope or one of the wrong shape fails uniformly with
    /// `UnwrapFailure`.
    pub fn unwrap(&self, kek: &KeyRef, wrapped: &WrappedKey) -> (r: Result<Vec<u8>, CryptoError>)
        ensures
            r matches Err(CryptoError::InvalidKey) <==> !key_material_ok(*kek),
            r matches Err(e) ==> (e == CryptoError::InvalidKey || e == CryptoError::UnwrapFailure),
            key_material_ok(*kek) && wrapped.wrapped@.len() != 60 ==> r matches Err(
                CryptoError::UnwrapFailure,
            ),
            r matches Ok(d) ==> d@.len() == 32,
            forall|dek: Seq<u8>|
                key_material_ok(*kek) && #[trigger] wraps(*kek, *wrapped, dek) ==> (
                r matches Ok(d) && d@ == dek),
    {
        let material: &Vec<u8> = match &kek.material {
            Some(m) => m,
            None => { return Err(CryptoError::InvalidKey); },
        };
        if material.len() != 32 {
            return Err(CryptoError::InvalidKey);
        }
        if wrapped.wrapped.len() != 60 {
            return Err(CryptoError::UnwrapFailure);
        }
        let nonce: &[u8] = vstd::slice::slice_subrange(wrapped.wrapped.as_slice(), 0, 12);
        let ct_tag: &[u8] = vstd::slice::slice_subrange(wrapped.wrapped.as_slice(), 12, 60);
        let empty_aad: Vec<u8> = Vec::new();
        let opened = chacha_open(material.as_slice(), nonce, empty_aad.as_slice(), ct_tag);
        proof {
            assert forall|dek: Seq<u8>|
                key_material_ok(*kek) && #[trigger] wraps(*kek, *wrapped, dek) implies (
            opened matches Ok(d) && d@ == dek) by {
                assert(nonce@ =~= wrapped.wrapped@.take(12));
                assert(ct_tag@ == chacha_sealed(material@, nonce@, Seq::empty(), dek));
                assert(dek.len() + 16 == ct_tag@.len());
            };
        }
        match opened {
            Ok(d) => Ok(d),
            Err(_) => Err(CryptoError::UnwrapFailure),
        }
    }

    /// The algorithm identifiers the engine supports, for each operation
    /// category. Authenticated encryption and key wrapping run
    /// ChaCha20-Poly1305; the engine offers no sealing operations, so those
    /// categories carry no identifiers.
    pub fn supports(&self) -> (r: Vec<(String, Vec<String>)>)
        ensures
            r@.len() == 6,
            r@[0].0@ == "encrypt"@ && r@[0].1@.len() == 1 && r@[0].1@[0]@ == "CHACHA20-POLY1305"@,
            r@[1].0@ == "decrypt"@ && r@[1].1@.len() == 1 && r@[1].1@[0]@ == "CHACHA20-POLY1305"@,
            r@[2].0@ == "wrap"@ && r@[2].1@.len() == 1 && r@[2].1@[0]@ == "CHACHA20-POLY1305"@,
            r@[3].0@ == "unwrap"@ && r@[3].1@.len() == 1 && r@[3].1@[0]@ == "CHACHA20-POLY1305"@,
            r@[4].0@ == "seal"@ && r@[4].1@.len() == 0,
            r@[5].0@ == "unseal"@ && r@[5].1@.len() == 0,
    {
        let mut r: Vec<(String, Vec<String>)> = Vec::new();
        let mut encrypt_algs: Vec<String> = Vec::new();
        encrypt_algs.push(Algorithm::ChaCha20Poly1305.identifier());
        r.push(("encrypt".to_string(), encrypt_algs));
        let mut decrypt_algs: Vec<String> = Vec::new();
        decrypt_algs.push(Algorithm::ChaCha20Poly1305.identifier());
        r.push(("decrypt".to_string(), decrypt_algs));
        let mut wrap_algs: Vec<String> = Vec::new();
        wrap_algs.push(Algorithm::ChaCha20Poly1305.identifier());
        r.push(("wrap".to_string(), wrap_algs));
        let mut unwrap_algs: Vec<String> = Vec::new();
        unwrap_algs.push(Algorithm::ChaCha20Poly1305.identifier());
        r.push(("unwrap".to_string(), unwrap_algs));
        r.push(("seal".to_string(), Vec::new()));
        r.push(("unseal".to_string(), Vec::new()));
        r
    }

    /// Fixed descriptive key/value pairs: engine version, backend and
    /// algorithm list.
    pub fn get_version_info(&self) -> (r: Vec<(String, String)>)
        ensures
            r@.len() == 4,
            r@[0].0@ == "rust_crypto_version"@ && r@[0].1@ == self.version@,
            r@[1].0@ == "ring_version"@ && r@[1].1@ == "0.17"@,
            r@[2].0@ == "backend"@ && r@[2].1@ == "ring + Rust"@,
            r@[3].0@ == "algorithms"@ && r@[3].1@ == "ChaCha20-Poly1305"@,
    {
        let mut r: Vec<(String, String)> = Vec::new();
        r.push(("rust_crypto_version".to_string(), self.version.clone()));
        r.push(("ring_version".to_string(), "0.17".to_string()));
        r.push(("backend".to_string(), "ring + Rust".to_string()));
        r.push(("algorithms".to_string(), "ChaCha20-Poly1305".to_string()));
        r
    }

    /// Liveness probe for a hosting framework; the engine is always ready.
    pub fn is_available(&self) -> (r: bool)
        ensures
            r,
    {
        true
    }
}

/// Round trip, decrypting with the AAD supplied again: an envelope that
/// encryption produced for a plaintext under a key and AAD meets the
/// condition under which decryption with that key and the same explicit
/// AAD returns exactly that plaintext.
pub proof fn lemma_round_trip_explicit_aad(
    key: KeyRef,
    env: AEADCiphertext,
    aad: Seq<u8>,
    pt: Seq<u8>,
)
    requires
        pt.len() <= CHACHA_MAX_MSG_LEN,
        encrypt_output_for(key, pt, aad, env),
    ensures
        decrypt_recovers(key, env, Some(aad), pt),
{
}

/// Round trip, decrypting with no explicit AAD: decryption falls back to
/// the AAD stored on the envelope, or to the empty AAD where none was
/// stored, and either is exactly the AAD that was authenticated at
/// encryption time, so the original plaintext is owed.
pub proof fn lemma_round_trip_stored_aad(
    key: KeyRef,
    env: AEADCiphertext,
    aad: Seq<u8>,
    pt: Seq<u8>,
)
    requires
        pt.len() <= CHACHA_MAX_MSG_LEN,
        encrypt_output_for(key, pt, aad, env),
    ensures
        decrypt_recovers(key, env, None, pt),
{
    if env.aad is None {
        assert(aad =~= Seq::<u8>::empty());
    }
}

} // verus!
