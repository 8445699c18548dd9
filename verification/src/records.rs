//! Host-facing structured records: the shapes in which keys, transform keys
//! and encrypted values cross the boundary. Their buffers carry no width
//! guarantee; the marshalers validate them.

use crate::models::EncryptedValueRecordModel;
use crate::models::PublicKeyModel;
use crate::models::TransformBlockModel;
use crate::models::TransformKeyModel;
use vstd::prelude::*;

verus! {

/// A public key record: the two curve coordinates.
pub struct JsPublicKey {
    pub x: Vec<u8>,
    pub y: Vec<u8>,
}

/// A key pair record.
pub struct JsKeyPair {
    pub privateKey: Vec<u8>,
    pub publicKey: JsPublicKey,
}

/// A signing key pair record.
pub struct JsSigningKeyPair {
    pub privateKey: Vec<u8>,
    pub publicKey: Vec<u8>,
}

/// A transform key record.
pub struct JsTransformKey {
    pub encryptedTempKey: Vec<u8>,
    pub ephemeralPublicKey: JsPublicKey,
    pub hashedTempKey: Vec<u8>,
    pub publicSigningKey: Vec<u8>,
    pub signature: Vec<u8>,
    pub toPublicKey: JsPublicKey,
}

/// A transform block record: one hop of re-encryption material.
pub struct JsTransformBlock {
    pub publicKey: JsPublicKey,
    pub encryptedTempKey: Vec<u8>,
    pub randomTransformPublicKey: JsPublicKey,
    pub randomTransformEncryptedTempKey: Vec<u8>,
}

/// An encrypted value record; an empty `transformBlocks` list stands for a
/// value that was encrypted once and never transformed.
pub struct JsEncryptedValue {
    pub authHash: Vec<u8>,
    pub encryptedMessage: Vec<u8>,
    pub ephemeralPublicKey: JsPublicKey,
    pub publicSigningKey: Vec<u8>,
    pub signature: Vec<u8>,
    pub transformBlocks: Vec<JsTransformBlock>,
}

impl View for JsPublicKey {
    type V = PublicKeyModel;

    open spec fn view(&self) -> PublicKeyModel {
        PublicKeyModel { x: self.x@, y: self.y@ }
    }
}

impl View for JsTransformBlock {
    type V = TransformBlockModel;

    open spec fn view(&self) -> TransformBlockModel {
        TransformBlockModel {
            public_key: self.publicKey@,
            encrypted_temp_key: self.encryptedTempKey@,
            random_transform_public_key: self.randomTransformPublicKey@,
            random_transform_encrypted_temp_key: self.randomTransformEncryptedTempKey@,
        }
    }
}

impl View for JsTransformKey {
    type V = TransformKeyModel;

    open spec fn view(&self) -> TransformKeyModel {
        TransformKeyModel {
            encrypted_temp_key: self.encryptedTempKey@,
            ephemeral_public_key: self.ephemeralPublicKey@,
            hashed_temp_key: self.hashedTempKey@,
            public_signing_key: self.publicSigningKey@,
            signature: self.signature@,
            to_public_key: self.toPublicKey@,
        }
    }
}

impl View for JsEncryptedValue {
    type V = EncryptedValueRecordModel;

    open spec fn view(&self) -> EncryptedValueRecordModel {
        EncryptedValueRecordModel {
            auth_hash: self.authHash@,
            encrypted_message: self.encryptedMessage@,
            ephemeral_public_key: self.ephemeralPublicKey@,
            public_signing_key: self.publicSigningKey@,
            signature: self.signature@,
            transform_blocks: self.transformBlocks@.map_values(|b: JsTransformBlock| b@),
        }
    }
}

} // verus!
