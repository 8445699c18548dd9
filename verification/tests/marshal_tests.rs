//! Round-trip and validation tests for the record marshalers.

use recrypt_binding::errors::ApiError;
use recrypt_binding::marshal::encrypted_value_to_js_object;
use recrypt_binding::marshal::js_object_to_encrypted_value;
use recrypt_binding::marshal::js_object_to_public_key;
use recrypt_binding::marshal::js_object_to_transform_blocks;
use recrypt_binding::marshal::js_object_to_transform_key;
use recrypt_binding::marshal::public_key_to_js_object;
use recrypt_binding::marshal::transform_key_to_js_object;
use recrypt_binding::records::JsEncryptedValue;
use recrypt_binding::records::JsPublicKey;
use recrypt_binding::records::JsTransformBlock;
use recrypt_binding::records::JsTransformKey;
use recrypt_binding::values::EncryptedValue256;

fn sample_public_key(tag: u8) -> JsPublicKey {
    JsPublicKey { x: vec![tag; 32], y: vec![tag.wrapping_add(1); 32] }
}

fn sample_transform_key() -> JsTransformKey {
    JsTransformKey {
        encryptedTempKey: vec![3; 384],
        ephemeralPublicKey: sample_public_key(10),
        hashedTempKey: vec![4; 128],
        publicSigningKey: vec![5; 32],
        signature: vec![6; 64],
        toPublicKey: sample_public_key(20),
    }
}

fn sample_block(tag: u8) -> JsTransformBlock {
    JsTransformBlock {
        publicKey: sample_public_key(tag),
        encryptedTempKey: vec![tag; 384],
        randomTransformPublicKey: sample_public_key(tag.wrapping_add(2)),
        randomTransformEncryptedTempKey: vec![tag.wrapping_add(3); 384],
    }
}

fn sample_encrypted_value(blocks: Vec<JsTransformBlock>) -> JsEncryptedValue {
    JsEncryptedValue {
        authHash: vec![7; 32],
        encryptedMessage: vec![8; 384],
        ephemeralPublicKey: sample_public_key(30),
        publicSigningKey: vec![9; 32],
        signature: vec![11; 64],
        transformBlocks: blocks,
    }
}

#[test]
fn public_key_record_round_trips() {
    let record = sample_public_key(1);
    let decoded = js_object_to_public_key(&record).unwrap();
    let encoded = public_key_to_js_object(&decoded);
    assert_eq!(encoded.x, record.x);
    assert_eq!(encoded.y, record.y);
}

#[test]
fn transform_key_record_round_trips() {
    let record = sample_transform_key();
    let decoded = js_object_to_transform_key(&record).unwrap();
    let encoded = transform_key_to_js_object(&decoded);
    assert_eq!(encoded.encryptedTempKey, record.encryptedTempKey);
    assert_eq!(encoded.ephemeralPublicKey.x, record.ephemeralPublicKey.x);
    assert_eq!(encoded.ephemeralPublicKey.y, record.ephemeralPublicKey.y);
    assert_eq!(encoded.hashedTempKey, record.hashedTempKey);
    assert_eq!(encoded.publicSigningKey, record.publicSigningKey);
    assert_eq!(encoded.signature, record.signature);
    assert_eq!(encoded.toPublicKey.x, record.toPublicKey.x);
    assert_eq!(encoded.toPublicKey.y, record.toPublicKey.y);
}

#[test]
fn encrypted_once_record_round_trips() {
    let record = sample_encrypted_value(vec![]);
    let decoded = js_object_to_encrypted_value(&record).unwrap();
    assert!(matches!(decoded, EncryptedValue256::EncryptedOnceValue { .. }));
    let encoded = encrypted_value_to_js_object(&decoded);
    assert_eq!(encoded.authHash, record.authHash);
    assert_eq!(encoded.encryptedMessage, record.encryptedMessage);
    assert_eq!(encoded.ephemeralPublicKey.x, record.ephemeralPublicKey.x);
    assert_eq!(encoded.publicSigningKey, record.publicSigningKey);
    assert_eq!(encoded.signature, record.signature);
    assert_eq!(encoded.transformBlocks.len(), 0);
}

#[test]
fn transformed_record_round_trips_in_order() {
    let record = sample_encrypted_value(vec![sample_block(40), sample_block(50)]);
    let decoded = js_object_to_encrypted_value(&record).unwrap();
    assert!(matches!(decoded, EncryptedValue256::TransformedValue { .. }));
    let encoded = encrypted_value_to_js_object(&decoded);
    assert_eq!(encoded.transformBlocks.len(), 2);
    for (a, b) in encoded.transformBlocks.iter().zip(record.transformBlocks.iter()) {
        assert_eq!(a.publicKey.x, b.publicKey.x);
        assert_eq!(a.publicKey.y, b.publicKey.y);
        assert_eq!(a.encryptedTempKey, b.encryptedTempKey);
        assert_eq!(a.randomTransformPublicKey.x, b.randomTransformPublicKey.x);
        assert_eq!(a.randomTransformEncryptedTempKey, b.randomTransformEncryptedTempKey);
    }
}

#[test]
fn short_coordinate_names_its_field() {
    let record = JsPublicKey { x: vec![1; 31], y: vec![2; 32] };
    match js_object_to_public_key(&record) {
        Err(ApiError::SizeMismatch { field, expected, actual }) => {
            assert_eq!(field, "publicKey.x");
            assert_eq!(expected, 32);
            assert_eq!(actual, 31);
        }
        other => panic!("expected a size mismatch, got {:?}", other.is_ok()),
    }
}

#[test]
fn short_y_coordinate_names_its_field() {
    let record = JsPublicKey { x: vec![1; 32], y: vec![2; 30] };
    match js_object_to_public_key(&record) {
        Err(ApiError::SizeMismatch { field, expected, actual }) => {
            assert_eq!(field, "publicKey.y");
            assert_eq!(expected, 32);
            assert_eq!(actual, 30);
        }
        other => panic!("expected a size mismatch, got {:?}", other.is_ok()),
    }
}

#[test]
fn short_hashed_temp_key_names_its_field() {
    let mut record = sample_transform_key();
    record.hashedTempKey = vec![4; 127];
    match js_object_to_transform_key(&record) {
        Err(ApiError::SizeMismatch { field, expected, actual }) => {
            assert_eq!(field, "hashedTempKey");
            assert_eq!(expected, 128);
            assert_eq!(actual, 127);
        }
        other => panic!("expected a size mismatch, got {:?}", other.is_ok()),
    }
}

#[test]
fn short_block_temp_key_names_its_field() {
    let mut block = sample_block(40);
    block.encryptedTempKey = vec![1; 383];
    let record = sample_encrypted_value(vec![block]);
    match js_object_to_encrypted_value(&record) {
        Err(ApiError::SizeMismatch { field, expected, actual }) => {
            assert_eq!(field, "transformBlock.encryptedTempKey");
            assert_eq!(expected, 384);
            assert_eq!(actual, 383);
        }
        other => panic!("expected a size mismatch, got {:?}", other.is_ok()),
    }
}

#[test]
fn short_auth_hash_names_its_field() {
    let mut record = sample_encrypted_value(vec![]);
    record.authHash = vec![7; 31];
    match js_object_to_encrypted_value(&record) {
        Err(ApiError::SizeMismatch { field, expected, actual }) => {
            assert_eq!(field, "authHash");
            assert_eq!(expected, 32);
            assert_eq!(actual, 31);
        }
        other => panic!("expected a size mismatch, got {:?}", other.is_ok()),
    }
}

#[test]
fn empty_block_list_is_the_dedicated_error() {
    let blocks: Vec<JsTransformBlock> = vec![];
    match js_object_to_transform_blocks(&blocks) {
        Err(ApiError::EmptyChain) => {}
        other => panic!("expected the empty-chain error, got {:?}", other.is_ok()),
    }
}

#[test]
fn one_block_list_builds_a_chain() {
    let blocks = vec![sample_block(60)];
    let chain = js_object_to_transform_blocks(&blocks).unwrap();
    assert_eq!(chain.len(), 1);
    assert_eq!(chain.rest.len(), 0);
    assert_eq!(chain.first.encrypted_temp_key, blocks[0].encryptedTempKey);
}
