pub mod backend;
pub mod engine;
pub mod envelopes;
pub mod errors;
pub mod keys;

pub use backend::chacha_sealed;
pub use backend::CHACHA_MAX_MSG_LEN;
pub use engine::Algorithm;
pub use engine::RustCrypto;
pub use envelopes::envelope_wf;
pub use envelopes::AEADCiphertext;
pub use envelopes::WrappedKey;
pub use errors::CryptoError;
pub use keys::key_material_ok;
pub use keys::spec_material;
pub use keys::KeyRef;
