//! End-to-end tests of the facade against the real engine.

use recrypt_binding::api256::addPrivateKeys;
use recrypt_binding::api256::augmentPublicKey256;
use recrypt_binding::api256::augmentTransformKey256;
use recrypt_binding::api256::subtractPrivateKeys;
use recrypt_binding::api256::transformKeyToBytes256;
use recrypt_binding::engine::Api256;
use recrypt_binding::errors::ApiError;

#[test]
fn compute_public_key_matches_generated_pair() {
    let api = Api256::new();
    let pair = api.generateKeyPair().unwrap();
    let computed = api.computePublicKey(&pair.privateKey).unwrap();
    assert_eq!(computed.x, pair.publicKey.x);
    assert_eq!(computed.y, pair.publicKey.y);
}

#[test]
fn encrypt_then_decrypt_recovers_plaintext() {
    let api = Api256::new();
    let pair = api.generateKeyPair().unwrap();
    let signing = api.generateEd25519KeyPair();
    let plaintext = api.generatePlaintext();
    let encrypted = api.encrypt(&plaintext, &pair.publicKey, &signing.privateKey).unwrap();
    assert_eq!(encrypted.transformBlocks.len(), 0);
    let decrypted = api.decrypt(&encrypted, &pair.privateKey).unwrap();
    assert_eq!(decrypted, plaintext);
}

#[test]
fn single_hop_transform_decrypts_for_delegatee() {
    let api = Api256::new();
    let alice = api.generateKeyPair().unwrap();
    let bob = api.generateKeyPair().unwrap();
    let signing = api.generateEd25519KeyPair();
    let plaintext = api.generatePlaintext();
    let transform_key = api
        .generateTransformKey(&alice.privateKey, &bob.publicKey, &signing.privateKey)
        .unwrap();
    let encrypted = api.encrypt(&plaintext, &alice.publicKey, &signing.privateKey).unwrap();
    let transformed = api.transform(&encrypted, &transform_key, &signing.privateKey).unwrap();
    assert_eq!(transformed.transformBlocks.len(), 1);
    let decrypted = api.decrypt(&transformed, &bob.privateKey).unwrap();
    assert_eq!(decrypted, plaintext);
}

#[test]
fn two_hop_transform_counts_hops_and_decrypts() {
    let api = Api256::new();
    let alice = api.generateKeyPair().unwrap();
    let bob = api.generateKeyPair().unwrap();
    let carol = api.generateKeyPair().unwrap();
    let signing = api.generateEd25519KeyPair();
    let plaintext = api.generatePlaintext();
    let a_to_b = api
        .generateTransformKey(&alice.privateKey, &bob.publicKey, &signing.privateKey)
        .unwrap();
    let b_to_c = api
        .generateTransformKey(&bob.privateKey, &carol.publicKey, &signing.privateKey)
        .unwrap();
    let encrypted = api.encrypt(&plaintext, &alice.publicKey, &signing.privateKey).unwrap();
    let hop_one = api.transform(&encrypted, &a_to_b, &signing.privateKey).unwrap();
    assert_eq!(hop_one.transformBlocks.len(), 1);
    let hop_two = api.transform(&hop_one, &b_to_c, &signing.privateKey).unwrap();
    assert_eq!(hop_two.transformBlocks.len(), 2);
    let decrypted = api.decrypt(&hop_two, &carol.privateKey).unwrap();
    assert_eq!(decrypted, plaintext);
}

#[test]
fn decrypt_with_wrong_key_is_an_engine_error() {
    let api = Api256::new();
    let pair = api.generateKeyPair().unwrap();
    let wrong = api.generateKeyPair().unwrap();
    let signing = api.generateEd25519KeyPair();
    let plaintext = api.generatePlaintext();
    let encrypted = api.encrypt(&plaintext, &pair.publicKey, &signing.privateKey).unwrap();
    match api.decrypt(&encrypted, &wrong.privateKey) {
        Err(ApiError::EngineError { .. }) => {}
        other => panic!("expected an engine error, got ok={}", other.is_ok()),
    }
}

#[test]
fn decrypt_with_tampered_signature_is_rejected() {
    let api = Api256::new();
    let pair = api.generateKeyPair().unwrap();
    let signing = api.generateEd25519KeyPair();
    let plaintext = api.generatePlaintext();
    let mut encrypted = api.encrypt(&plaintext, &pair.publicKey, &signing.privateKey).unwrap();
    encrypted.signature[0] ^= 1;
    match api.decrypt(&encrypted, &pair.privateKey) {
        Err(ApiError::SignatureInvalid { .. }) => {}
        other => panic!("expected a signature failure, got ok={}", other.is_ok()),
    }
}

#[test]
fn private_key_algebra_round_trips() {
    let mut a = vec![0u8; 32];
    a[31] = 5;
    let mut b = vec![0u8; 32];
    b[31] = 7;
    let sum = addPrivateKeys(&a, &b).unwrap();
    let back = subtractPrivateKeys(&sum, &b).unwrap();
    assert_eq!(back, a);
}

#[test]
fn private_key_algebra_round_trips_on_generated_keys() {
    let api = Api256::new();
    let a = api.generateKeyPair().unwrap().privateKey;
    let b = api.generateKeyPair().unwrap().privateKey;
    let sum = addPrivateKeys(&a, &b).unwrap();
    let back = subtractPrivateKeys(&sum, &b).unwrap();
    assert_eq!(back, a);
}

#[test]
fn short_private_key_addend_names_its_field() {
    let a = vec![0u8; 31];
    let b = vec![0u8; 32];
    match addPrivateKeys(&a, &b) {
        Err(ApiError::SizeMismatch { field, expected, actual }) => {
            assert_eq!(field, "privateKeyA");
            assert_eq!(expected, 32);
            assert_eq!(actual, 31);
        }
        other => panic!("expected a size mismatch, got ok={}", other.is_ok()),
    }
}

#[test]
fn augmenting_key_images_is_the_image_of_the_sum() {
    // The public key of a sum of scalars is the augmentation of the
    // scalars' public keys.
    let api = Api256::new();
    let mut a = vec![0u8; 32];
    a[31] = 5;
    let mut b = vec![0u8; 32];
    b[31] = 7;
    let image_a = api.computePublicKey(&a).unwrap();
    let image_b = api.computePublicKey(&b).unwrap();
    let augmented = augmentPublicKey256(&image_a, &image_b).unwrap();
    let sum = addPrivateKeys(&a, &b).unwrap();
    let image_sum = api.computePublicKey(&sum).unwrap();
    assert_eq!(augmented.x, image_sum.x);
    assert_eq!(augmented.y, image_sum.y);
}

#[test]
fn ed25519_signature_round_trips_and_rejects_flips() {
    let api = Api256::new();
    let signing = api.generateEd25519KeyPair();
    let message = vec![1u8, 2, 3, 4];
    let signature = api.ed25519Sign(&signing.privateKey, &message).unwrap();
    assert_eq!(signature.len(), 64);
    assert!(api.ed25519Verify(&signing.publicKey, &message, &signature));
    let mut flipped_message = message.clone();
    flipped_message[2] ^= 1;
    assert!(!api.ed25519Verify(&signing.publicKey, &flipped_message, &signature));
    let mut flipped_signature = signature.clone();
    flipped_signature[10] ^= 1;
    assert!(!api.ed25519Verify(&signing.publicKey, &message, &flipped_signature));
}

#[test]
fn ed25519_sign_is_deterministic() {
    let api = Api256::new();
    let signing = api.generateEd25519KeyPair();
    let message = vec![9u8; 40];
    let first = api.ed25519Sign(&signing.privateKey, &message).unwrap();
    let second = api.ed25519Sign(&signing.privateKey, &message).unwrap();
    assert_eq!(first, second);
}

#[test]
fn ed25519_sign_rejects_inconsistent_pair() {
    let api = Api256::new();
    match api.ed25519Sign(&vec![0u8; 64], &vec![1u8]) {
        Err(ApiError::InvalidKey { .. }) => {}
        other => panic!("expected an invalid-key error, got ok={}", other.is_ok()),
    }
}

#[test]
fn ed25519_verify_is_false_on_short_key() {
    let api = Api256::new();
    assert!(!api.ed25519Verify(&vec![0u8; 31], &vec![1u8], &vec![0u8; 64]));
    assert!(!api.ed25519Verify(&vec![0u8; 32], &vec![1u8], &vec![0u8; 63]));
}

#[test]
fn compute_ed25519_public_key_is_second_half() {
    let api = Api256::new();
    let signing = api.generateEd25519KeyPair();
    let public = api.computeEd25519PublicKey(&signing.privateKey).unwrap();
    assert_eq!(public, signing.privateKey[32..64].to_vec());
    assert_eq!(public, signing.publicKey);
}

#[test]
fn short_signing_key_names_its_field() {
    let api = Api256::new();
    match api.ed25519Sign(&vec![0u8; 63], &vec![1u8]) {
        Err(ApiError::SizeMismatch { field, expected, actual }) => {
            assert_eq!(field, "privateSigningKey");
            assert_eq!(expected, 64);
            assert_eq!(actual, 63);
        }
        other => panic!("expected a size mismatch, got ok={}", other.is_ok()),
    }
}

#[test]
fn schnorr_augmented_verification_needs_the_offset() {
    let api = Api256::new();
    let pair = api.generateKeyPair().unwrap();
    let augmenting = api.generateKeyPair().unwrap();
    let message = vec![1u8, 2];
    let augmented_public = augmentPublicKey256(&pair.publicKey, &augmenting.publicKey).unwrap();
    let signature = api.schnorrSign(&pair.privateKey, &augmented_public, &message).unwrap();
    assert_eq!(signature.len(), 64);
    let with_offset = api
        .schnorrVerify(
            &augmented_public,
            Some(augmenting.privateKey.clone()),
            &message,
            &signature,
        )
        .unwrap();
    assert!(with_offset);
    let without_offset = api.schnorrVerify(&augmented_public, None, &message, &signature).unwrap();
    assert!(!without_offset);
}

#[test]
fn schnorr_unaugmented_round_trip() {
    let api = Api256::new();
    let pair = api.generateKeyPair().unwrap();
    let message = vec![1u8, 2, 3, 4];
    let signature = api.schnorrSign(&pair.privateKey, &pair.publicKey, &message).unwrap();
    let verdict = api.schnorrVerify(&pair.publicKey, None, &message, &signature).unwrap();
    assert!(verdict);
}

#[test]
fn short_augmented_key_names_its_field() {
    let api = Api256::new();
    let pair = api.generateKeyPair().unwrap();
    match api.schnorrVerify(&pair.publicKey, Some(vec![0u8; 31]), &vec![1u8], &vec![0u8; 64]) {
        Err(ApiError::SizeMismatch { field, expected, actual }) => {
            assert_eq!(field, "augmentedPrivateKey");
            assert_eq!(expected, 32);
            assert_eq!(actual, 31);
        }
        other => panic!("expected a size mismatch, got ok={}", other.is_ok()),
    }
}

#[test]
fn off_curve_point_is_an_invalid_key() {
    // Well-sized coordinates that are no point on the curve are the engine's
    // rejection, not a size mismatch.
    let api = Api256::new();
    let signing = api.generateEd25519KeyPair();
    let plaintext = api.generatePlaintext();
    let bogus = recrypt_binding::records::JsPublicKey { x: vec![1u8; 32], y: vec![1u8; 32] };
    match api.encrypt(&plaintext, &bogus, &signing.privateKey) {
        Err(ApiError::InvalidKey { .. }) => {}
        other => panic!("expected an invalid-key error, got ok={}", other.is_ok()),
    }
}

#[test]
fn augmenting_off_curve_points_is_an_invalid_key() {
    let bogus_a = recrypt_binding::records::JsPublicKey { x: vec![1u8; 32], y: vec![1u8; 32] };
    let bogus_b = recrypt_binding::records::JsPublicKey { x: vec![2u8; 32], y: vec![2u8; 32] };
    match augmentPublicKey256(&bogus_a, &bogus_b) {
        Err(ApiError::InvalidKey { .. }) => {}
        other => panic!("expected an invalid-key error, got ok={}", other.is_ok()),
    }
}

#[test]
fn hash256_matches_known_digest() {
    let api = Api256::new();
    let digest = api.hash256(&vec![1u8]);
    let expected: Vec<u8> = vec![
        0x4b, 0xf5, 0x12, 0x2f, 0x34, 0x45, 0x54, 0xc5, 0x3b, 0xde, 0x2e, 0xbb, 0x8c, 0xd2, 0xb7,
        0xe3, 0xd1, 0x60, 0x0a, 0xd6, 0x31, 0xc3, 0x85, 0xa5, 0xd7, 0xcc, 0xe2, 0x3c, 0x77, 0x85,
        0x45, 0x9a,
    ];
    assert_eq!(digest, expected);
}

#[test]
fn derive_symmetric_key_hashes_the_plaintext() {
    let api = Api256::new();
    let plaintext = api.generatePlaintext();
    let symmetric = api.deriveSymmetricKey(&plaintext).unwrap();
    assert_eq!(symmetric, api.hash256(&plaintext));
}

#[test]
fn short_plaintext_names_its_field() {
    let api = Api256::new();
    match api.deriveSymmetricKey(&vec![0u8; 383]) {
        Err(ApiError::SizeMismatch { field, expected, actual }) => {
            assert_eq!(field, "plaintext");
            assert_eq!(expected, 384);
            assert_eq!(actual, 383);
        }
        other => panic!("expected a size mismatch, got ok={}", other.is_ok()),
    }
}

#[test]
fn zero_scalar_has_no_public_key() {
    // The zero scalar is the one input the engine's key derivation rejects.
    let api = Api256::new();
    match api.computePublicKey(&vec![0u8; 32]) {
        Err(ApiError::InvalidKey { .. }) => {}
        other => panic!("expected an invalid-key error, got ok={}", other.is_ok()),
    }
}

#[test]
fn short_private_key_names_its_field() {
    let api = Api256::new();
    match api.computePublicKey(&vec![0u8; 31]) {
        Err(ApiError::SizeMismatch { field, expected, actual }) => {
            assert_eq!(field, "privateKey");
            assert_eq!(expected, 32);
            assert_eq!(actual, 31);
        }
        other => panic!("expected a size mismatch, got ok={}", other.is_ok()),
    }
}

#[test]
fn transform_key_bytes_are_the_canonical_concatenation() {
    let api = Api256::new();
    let alice = api.generateKeyPair().unwrap();
    let bob = api.generateKeyPair().unwrap();
    let signing = api.generateEd25519KeyPair();
    let transform_key = api
        .generateTransformKey(&alice.privateKey, &bob.publicKey, &signing.privateKey)
        .unwrap();
    let bytes = transformKeyToBytes256(&transform_key).unwrap();
    let mut expected = Vec::new();
    expected.extend_from_slice(&transform_key.ephemeralPublicKey.x);
    expected.extend_from_slice(&transform_key.ephemeralPublicKey.y);
    expected.extend_from_slice(&transform_key.toPublicKey.x);
    expected.extend_from_slice(&transform_key.toPublicKey.y);
    expected.extend_from_slice(&transform_key.encryptedTempKey);
    expected.extend_from_slice(&transform_key.hashedTempKey);
    expected.extend_from_slice(&transform_key.publicSigningKey);
    assert_eq!(bytes.len(), 672);
    assert_eq!(bytes, expected);
}

#[test]
fn augmented_transform_key_changes_only_the_hashed_key() {
    let api = Api256::new();
    let alice = api.generateKeyPair().unwrap();
    let bob = api.generateKeyPair().unwrap();
    let augmenting = api.generateKeyPair().unwrap();
    let signing = api.generateEd25519KeyPair();
    let transform_key = api
        .generateTransformKey(&alice.privateKey, &bob.publicKey, &signing.privateKey)
        .unwrap();
    let augmented = augmentTransformKey256(&transform_key, &augmenting.privateKey).unwrap();
    assert_eq!(augmented.ephemeralPublicKey.x, transform_key.ephemeralPublicKey.x);
    assert_eq!(augmented.toPublicKey.x, transform_key.toPublicKey.x);
    assert_eq!(augmented.encryptedTempKey, transform_key.encryptedTempKey);
    assert_eq!(augmented.publicSigningKey, transform_key.publicSigningKey);
    assert_eq!(augmented.signature, transform_key.signature);
    assert_ne!(augmented.hashedTempKey, transform_key.hashedTempKey);
}

#[test]
fn augmented_keys_delegate_through_transform() {
    let api = Api256::new();
    let alice = api.generateKeyPair().unwrap();
    let augmenting = api.generateKeyPair().unwrap();
    let bob = api.generateKeyPair().unwrap();
    let signing = api.generateEd25519KeyPair();
    let plaintext = api.generatePlaintext();
    let augmented_public = augmentPublicKey256(&alice.publicKey, &augmenting.publicKey).unwrap();
    let transform_key = api
        .generateTransformKey(&alice.privateKey, &bob.publicKey, &signing.privateKey)
        .unwrap();
    let augmented_transform_key =
        augmentTransformKey256(&transform_key, &augmenting.privateKey).unwrap();
    let encrypted = api.encrypt(&plaintext, &augmented_public, &signing.privateKey).unwrap();
    let transformed = api
        .transform(&encrypted, &augmented_transform_key, &signing.privateKey)
        .unwrap();
    let decrypted = api.decrypt(&transformed, &bob.privateKey).unwrap();
    assert_eq!(decrypted, plaintext);
}
