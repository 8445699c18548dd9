//! Validated engine-value types: the same data as the host records, but only
//! constructed by the marshalers after every buffer has passed the fixed-size
//! codec. A transform chain is structurally non-empty, so the "transformed
//! value with no blocks" shape cannot be represented.

use crate::models::block_wf;
use crate::models::ev_wf;
use crate::models::pk_wf;
use crate::models::tk_wf;
use crate::models::EncryptedValueModel;
use crate::models::PublicKeyModel;
use crate::models::TransformBlockModel;
use crate::models::TransformKeyModel;
use vstd::prelude::*;

verus! {

/// A validated public key: both coordinates exactly 32 bytes.
pub struct PublicKey256 {
    pub x: Vec<u8>,
    pub y: Vec<u8>,
}

impl View for PublicKey256 {
    type V = PublicKeyModel;

    open spec fn view(&self) -> PublicKeyModel {
        PublicKeyModel { x: self.x@, y: self.y@ }
    }
}

impl PublicKey256 {
    pub open spec fn wf(&self) -> bool {
        pk_wf(self@)
    }
}

/// A validated transform block.
pub struct TransformBlock256 {
    pub public_key: PublicKey256,
    pub encrypted_temp_key: Vec<u8>,
    pub random_transform_public_key: PublicKey256,
    pub random_transform_encrypted_temp_key: Vec<u8>,
}

impl View for TransformBlock256 {
    type V = TransformBlockModel;

    open spec fn view(&self) -> TransformBlockModel {
        TransformBlockModel {
            public_key: self.public_key@,
            encrypted_temp_key: self.encrypted_temp_key@,
            random_transform_public_key: self.random_transform_public_key@,
            random_transform_encrypted_temp_key: self.random_transform_encrypted_temp_key@,
        }
    }
}

impl TransformBlock256 {
    pub open spec fn wf(&self) -> bool {
        block_wf(self@)
    }
}

/// A validated transform key.
pub struct TransformKey256 {
    pub encrypted_temp_key: Vec<u8>,
    pub ephemeral_public_key: PublicKey256,
    pub hashed_temp_key: Vec<u8>,
    pub public_signing_key: Vec<u8>,
    pub signature: Vec<u8>,
    pub to_public_key: PublicKey256,
}

impl View for TransformKey256 {
    type V = TransformKeyModel;

    open spec fn view(&self) -> TransformKeyModel {
        TransformKeyModel {
            encrypted_temp_key: self.encrypted_temp_key@,
            ephemeral_public_key: self.ephemeral_public_key@,
            hashed_temp_key: self.hashed_temp_key@,
            public_signing_key: self.public_signing_key@,
            signature: self.signature@,
            to_public_key: self.to_public_key@,
        }
    }
}

impl TransformKey256 {
    pub open spec fn wf(&self) -> bool {
        tk_wf(self@)
    }
}

/// An ordered, structurally non-empty chain of transform blocks, oldest hop
/// first.
pub struct TransformChain {
    pub first: TransformBlock256,
    pub rest: Vec<TransformBlock256>,
}

impl View for TransformChain {
    type V = Seq<TransformBlockModel>;

    open spec fn view(&self) -> Seq<TransformBlockModel> {
        seq![self.first@] + self.rest@.map_values(|b: TransformBlock256| b@)
    }
}

impl TransformChain {
    pub open spec fn wf(&self) -> bool {
        forall|i: int| 0 <= i < self@.len() ==> block_wf(#[trigger] self@[i])
    }

    /// The number of hops in the chain, always at least one.
    pub fn len(&self) -> (n: usize)
        requires
            self.rest@.len() < usize::MAX,
        ensures
            n == self@.len(),
            n >= 1,
    {
        1 + self.rest.len()
    }
}

/// A validated encrypted value: either encrypted once, or carrying the
/// non-empty chain of the transforms applied to it.
pub enum EncryptedValue256 {
    EncryptedOnceValue {
        ephemeral_public_key: PublicKey256,
        encrypted_message: Vec<u8>,
        auth_hash: Vec<u8>,
        public_signing_key: Vec<u8>,
        signature: Vec<u8>,
    },
    TransformedValue {
        ephemeral_public_key: PublicKey256,
        encrypted_message: Vec<u8>,
        auth_hash: Vec<u8>,
        public_signing_key: Vec<u8>,
        signature: Vec<u8>,
        transform_blocks: TransformChain,
    },
}

impl View for EncryptedValue256 {
    type V = EncryptedValueModel;

    open spec fn view(&self) -> EncryptedValueModel {
        match self {
            EncryptedValue256::EncryptedOnceValue {
                ephemeral_public_key,
                encrypted_message,
                auth_hash,
                public_signing_key,
                signature,
            } => EncryptedValueModel::Once {
                ephemeral_public_key: ephemeral_public_key@,
                encrypted_message: encrypted_message@,
                auth_hash: auth_hash@,
                public_signing_key: public_signing_key@,
                signature: signature@,
            },
            EncryptedValue256::TransformedValue {
                ephemeral_public_key,
                encrypted_message,
                auth_hash,
                public_signing_key,
                signature,
                transform_blocks,
            } => EncryptedValueModel::Transformed {
                ephemeral_public_key: ephemeral_public_key@,
                encrypted_message: encrypted_message@,
                auth_hash: auth_hash@,
                public_signing_key: public_signing_key@,
                signature: signature@,
                transform_blocks: transform_blocks@,
            },
        }
    }
}

impl EncryptedValue256 {
    pub open spec fn wf(&self) -> bool {
        ev_wf(self@)
    }
}

} // verus!
