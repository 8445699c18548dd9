//! Mathematical models of the boundary records and engine values, together
//! with their well-formedness predicates (the exact byte width of each field).

use vstd::prelude::*;

verus! {

/// A curve point as a pair of coordinate byte strings.
pub struct PublicKeyModel {
    pub x: Seq<u8>,
    pub y: Seq<u8>,
}

/// One hop of re-encryption material.
pub struct TransformBlockModel {
    pub public_key: PublicKeyModel,
    pub encrypted_temp_key: Seq<u8>,
    pub random_transform_public_key: PublicKeyModel,
    pub random_transform_encrypted_temp_key: Seq<u8>,
}

/// A delegation credential for one hop of re-encryption.
pub struct TransformKeyModel {
    pub encrypted_temp_key: Seq<u8>,
    pub ephemeral_public_key: PublicKeyModel,
    pub hashed_temp_key: Seq<u8>,
    pub public_signing_key: Seq<u8>,
    pub signature: Seq<u8>,
    pub to_public_key: PublicKeyModel,
}

/// The wire shape of an encrypted value: the transform-block list may hold
/// any number of blocks, the empty list standing for a value that was
/// encrypted once and never transformed.
pub struct EncryptedValueRecordModel {
    pub auth_hash: Seq<u8>,
    pub encrypted_message: Seq<u8>,
    pub ephemeral_public_key: PublicKeyModel,
    pub public_signing_key: Seq<u8>,
    pub signature: Seq<u8>,
    pub transform_blocks: Seq<TransformBlockModel>,
}

/// The structural shape of an encrypted value: either encrypted once, or
/// transformed with a chain of at least one block, oldest hop first.
pub enum EncryptedValueModel {
    Once {
        ephemeral_public_key: PublicKeyModel,
        encrypted_message: Seq<u8>,
        auth_hash: Seq<u8>,
        public_signing_key: Seq<u8>,
        signature: Seq<u8>,
    },
    Transformed {
        ephemeral_public_key: PublicKeyModel,
        encrypted_message: Seq<u8>,
        auth_hash: Seq<u8>,
        public_signing_key: Seq<u8>,
        signature: Seq<u8>,
        transform_blocks: Seq<TransformBlockModel>,
    },
}

pub open spec fn pk_wf(m: PublicKeyModel) -> bool {
    m.x.len() == 32 && m.y.len() == 32
}

pub open spec fn block_wf(m: TransformBlockModel) -> bool {
    &&& pk_wf(m.public_key)
    &&& m.encrypted_temp_key.len() == 384
    &&& pk_wf(m.random_transform_public_key)
    &&& m.random_transform_encrypted_temp_key.len() == 384
}

pub open spec fn tk_wf(m: TransformKeyModel) -> bool {
    &&& pk_wf(m.ephemeral_public_key)
    &&& pk_wf(m.to_public_key)
    &&& m.encrypted_temp_key.len() == 384
    &&& m.hashed_temp_key.len() == 128
    &&& m.public_signing_key.len() == 32
    &&& m.signature.len() == 64
}

pub open spec fn ev_wf(m: EncryptedValueModel) -> bool {
    match m {
        EncryptedValueModel::Once {
            ephemeral_public_key,
            encrypted_message,
            auth_hash,
            public_signing_key,
            signature,
        } => {
            &&& pk_wf(ephemeral_public_key)
            &&& encrypted_message.len() == 384
            &&& auth_hash.len() == 32
            &&& public_signing_key.len() == 32
            &&& signature.len() == 64
        },
        EncryptedValueModel::Transformed {
            ephemeral_public_key,
            encrypted_message,
            auth_hash,
            public_signing_key,
            signature,
            transform_blocks,
        } => {
            &&& pk_wf(ephemeral_public_key)
            &&& encrypted_message.len() == 384
            &&& auth_hash.len() == 32
            &&& public_signing_key.len() == 32
            &&& signature.len() == 64
            &&& transform_blocks.len() >= 1
            &&& forall|i: int|
                0 <= i < transform_blocks.len() ==> block_wf(#[trigger] transform_blocks[i])
        },
    }
}

/// The fields common to both shapes of an encrypted value, and the block
/// chain (empty for a once-encrypted value): the wire record an encrypted
/// value marshals to.
pub open spec fn ev_to_record(m: EncryptedValueModel) -> EncryptedValueRecordModel {
    match m {
        EncryptedValueModel::Once {
            ephemeral_public_key,
            encrypted_message,
            auth_hash,
            public_signing_key,
            signature,
        } => EncryptedValueRecordModel {
            auth_hash,
            encrypted_message,
            ephemeral_public_key,
            public_signing_key,
            signature,
            transform_blocks: Seq::empty(),
        },
        EncryptedValueModel::Transformed {
            ephemeral_public_key,
            encrypted_message,
            auth_hash,
            public_signing_key,
            signature,
            transform_blocks,
        } => EncryptedValueRecordModel {
            auth_hash,
            encrypted_message,
            ephemeral_public_key,
            public_signing_key,
            signature,
            transform_blocks,
        },
    }
}

/// The number of re-encryption hops an encrypted value has been through:
/// none for a once-encrypted value, else the length of its chain.
pub open spec fn ev_hops(m: EncryptedValueModel) -> nat {
    match m {
        EncryptedValueModel::Once { .. } => 0,
        EncryptedValueModel::Transformed { transform_blocks, .. } => transform_blocks.len(),
    }
}

/// Both shapes of a result, each seen through its view.
pub open spec fn res_view<T: View, E: View>(r: Result<T, E>) -> Result<T::V, E::V> {
    match r {
        Ok(v) => Ok(v@),
        Err(e) => Err(e@),
    }
}

/// The view of an optional value.
pub open spec fn opt_view<T: View>(o: Option<T>) -> Option<T::V> {
    match o {
        Some(v) => Some(v@),
        None => None,
    }
}

} // verus!
