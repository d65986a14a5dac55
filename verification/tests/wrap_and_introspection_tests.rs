use swarmauri_crypto_rust::{CryptoError, KeyRef, RustCrypto, WrappedKey};

fn kek(material: Vec<u8>) -> KeyRef {
    KeyRef::new(
        "kek-1".to_string(),
        3,
        "symmetric".to_string(),
        vec!["wrap".to_string(), "unwrap".to_string()],
        Some(material),
        None,
    )
}

#[test]
fn wrap_unwrap_round_trip() {
    let engine = RustCrypto::new();
    let kek = kek(vec![9u8; 32]);
    let dek = vec![77u8; 32];
    let wrapped = engine.wrap(&kek, &dek).expect("wrap");
    assert_eq!(wrapped.kek_kid, "kek-1");
    assert_eq!(wrapped.kek_version, 3);
    assert_eq!(wrapped.wrap_alg, "CHACHA20-POLY1305");
    assert_eq!(wrapped.wrapped.len(), 60);
    let recovered = engine.unwrap(&kek, &wrapped).expect("unwrap");
    assert_eq!(recovered, dek);
}

#[test]
fn wrap_validates_dek_and_kek() {
    let engine = RustCrypto::new();
    let good_kek = kek(vec![9u8; 32]);
    for len in [0usize, 16, 31, 33] {
        let dek = vec![1u8; len];
        assert!(matches!(
            engine.wrap(&good_kek, &dek),
            Err(CryptoError::InvalidKey)
        ));
    }
    let bad_kek = kek(vec![9u8; 16]);
    assert!(matches!(
        engine.wrap(&bad_kek, &[2u8; 32]),
        Err(CryptoError::InvalidKey)
    ));
    let no_material = KeyRef::new(
        "kek-2".to_string(),
        1,
        "symmetric".to_string(),
        vec![],
        None,
        None,
    );
    assert!(matches!(
        engine.wrap(&no_material, &[2u8; 32]),
        Err(CryptoError::InvalidKey)
    ));
    assert!(matches!(
        engine.unwrap(&no_material, &WrappedKey::new("x".to_string(), 1, "y".to_string(), vec![0; 60])),
        Err(CryptoError::InvalidKey)
    ));
}

#[test]
fn unwrap_rejects_tampering_and_wrong_kek() {
    let engine = RustCrypto::new();
    let kek_a = kek(vec![9u8; 32]);
    let kek_b = kek(vec![10u8; 32]);
    let dek = vec![77u8; 32];
    let wrapped = engine.wrap(&kek_a, &dek).expect("wrap");
    assert!(matches!(
        engine.unwrap(&kek_b, &wrapped),
        Err(CryptoError::UnwrapFailure)
    ));
    for i in 0..wrapped.wrapped.len() {
        let mut tampered = wrapped.clone();
        tampered.wrapped[i] ^= 0x80;
        assert!(matches!(
            engine.unwrap(&kek_a, &tampered),
            Err(CryptoError::UnwrapFailure)
        ));
    }
    let mut truncated = wrapped.clone();
    truncated.wrapped.pop();
    assert!(matches!(
        engine.unwrap(&kek_a, &truncated),
        Err(CryptoError::UnwrapFailure)
    ));
    let empty = WrappedKey::new("kek-1".to_string(), 3, "CHACHA20-POLY1305".to_string(), vec![]);
    assert!(matches!(
        engine.unwrap(&kek_a, &empty),
        Err(CryptoError::UnwrapFailure)
    ));
}

#[test]
fn two_wraps_of_the_same_dek_differ() {
    let engine = RustCrypto::new();
    let kek = kek(vec![9u8; 32]);
    let dek = vec![77u8; 32];
    let w1 = engine.wrap(&kek, &dek).expect("wrap");
    let w2 = engine.wrap(&kek, &dek).expect("wrap");
    // Fresh random nonces keep even identical keys from wrapping alike.
    assert_ne!(w1.wrapped, w2.wrapped);
}

#[test]
fn supports_lists_chacha_for_aead_and_wrapping() {
    let engine = RustCrypto::new();
    let table = engine.supports();
    assert_eq!(table.len(), 6);
    let find = |op: &str| -> &Vec<String> {
        &table.iter().find(|e| e.0 == op).expect("operation present").1
    };
    assert!(find("encrypt").contains(&"CHACHA20-POLY1305".to_string()));
    assert!(find("decrypt").contains(&"CHACHA20-POLY1305".to_string()));
    assert!(find("wrap").contains(&"CHACHA20-POLY1305".to_string()));
    assert!(find("unwrap").contains(&"CHACHA20-POLY1305".to_string()));
    assert!(find("seal").is_empty());
    assert!(find("unseal").is_empty());
}

#[test]
fn version_info_and_availability() {
    let engine = RustCrypto::new();
    assert_eq!(engine.version, "0.1.0");
    assert!(engine.is_available());
    let info = engine.get_version_info();
    assert_eq!(info.len(), 4);
    assert_eq!(info[0], ("rust_crypto_version".to_string(), "0.1.0".to_string()));
    assert_eq!(info[1], ("ring_version".to_string(), "0.17".to_string()));
    assert_eq!(info[2], ("backend".to_string(), "ring + Rust".to_string()));
    assert_eq!(info[3], ("algorithms".to_string(), "ChaCha20-Poly1305".to_string()));
}
