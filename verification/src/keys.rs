use vstd::prelude::*;

verus! {

/// Immutable descriptor of a key: identity, capability tags and, for keys
/// held locally, the secret or public byte material.
///
/// The engine only borrows a `KeyRef` for the duration of a call; it never
/// retains or mutates one.
#[derive(Clone, Debug)]
pub struct KeyRef {
    /// Opaque key identifier.
    pub kid: String,
    /// Monotonic version of the key under `kid`.
    pub version: u32,
    /// Tag naming the kind of key (symmetric, asymmetric-public, ...).
    pub key_type: String,
    /// Capability tags such as `"encrypt"` or `"wrap"`.
    pub uses: Vec<String>,
    /// Secret byte material, present only for keys held locally.
    pub material: Option<Vec<u8>>,
    /// Public byte material, where one exists.
    pub public: Option<Vec<u8>>,
}

/// The secret material of a key, as a byte sequence; meaningful only when
/// `key_material_ok` holds.
pub open spec fn spec_material(key: KeyRef) -> Seq<u8> {
    key.material->0@
}

/// A key is usable for the symmetric AEAD operations exactly when its secret
/// material is present and is 32 bytes long.
pub open spec fn key_material_ok(key: KeyRef) -> bool {
    &&& key.material is Some
    &&& spec_material(key).len() == 32
}

impl KeyRef {
    /// Builds a key descriptor from its parts.
    pub fn new(
        kid: String,
        version: u32,
        key_type: String,
        uses: Vec<String>,
        material: Option<Vec<u8>>,
        public: Option<Vec<u8>>,
    ) -> (r: KeyRef)
        ensures
            r == (KeyRef { kid, version, key_type, uses, material, public }),
    {
        KeyRef { kid, version, key_type, uses, material, public }
    }
}

} // verus!
