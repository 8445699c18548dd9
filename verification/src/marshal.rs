//! Bidirectional marshalers between host records and validated engine values.
//!
//! Each decoding direction is specified by a spec function over the models;
//! the exec function returns exactly what the spec function says, including
//! which field's size mismatch surfaces first. Encoding is the exact inverse,
//! and the round-trip lemmas state that decoding an encoded value gives the
//! value back.

use crate::codec::copy_bytes;
use crate::codec::size_mismatch;
use crate::codec::to_fixed;
use crate::errors::ApiError;
use crate::errors::ErrorModel;
use crate::models::block_wf;
use crate::models::ev_to_record;
use crate::models::ev_wf;
use crate::models::pk_wf;
use crate::models::res_view;
use crate::models::tk_wf;
use crate::models::EncryptedValueModel;
use crate::models::EncryptedValueRecordModel;
use crate::models::PublicKeyModel;
use crate::models::TransformBlockModel;
use crate::models::TransformKeyModel;
use crate::records::JsEncryptedValue;
use crate::records::JsKeyPair;
use crate::records::JsPublicKey;
use crate::records::JsSigningKeyPair;
use crate::records::JsTransformBlock;
use crate::records::JsTransformKey;
use crate::values::EncryptedValue256;
use crate::values::PublicKey256;
use crate::values::TransformBlock256;
use crate::values::TransformChain;
use crate::values::TransformKey256;
use vstd::prelude::*;

verus! {

/// What decoding a public-key record yields: the record itself when both
/// coordinates are exactly 32 bytes, else the first mismatched field.
pub open spec fn decode_public_key_spec(j: PublicKeyModel) -> Result<PublicKeyModel, ErrorModel> {
    if j.x.len() != 32 {
        Err(size_mismatch("publicKey.x"@, 32, j.x.len()))
    } else if j.y.len() != 32 {
        Err(size_mismatch("publicKey.y"@, 32, j.y.len()))
    } else {
        Ok(j)
    }
}

/// What decoding a transform-key record yields, field checks in wire order.
pub open spec fn decode_transform_key_spec(j: TransformKeyModel) -> Result<
    TransformKeyModel,
    ErrorModel,
> {
    match decode_public_key_spec(j.ephemeral_public_key) {
        Err(e) => Err(e),
        Ok(_) => match decode_public_key_spec(j.to_public_key) {
            Err(e) => Err(e),
            Ok(_) => if j.encrypted_temp_key.len() != 384 {
                Err(size_mismatch("encryptedTempKey"@, 384, j.encrypted_temp_key.len()))
            } else if j.hashed_temp_key.len() != 128 {
                Err(size_mismatch("hashedTempKey"@, 128, j.hashed_temp_key.len()))
            } else if j.public_signing_key.len() != 32 {
                Err(size_mismatch("publicSigningKey"@, 32, j.public_signing_key.len()))
            } else if j.signature.len() != 64 {
                Err(size_mismatch("signature"@, 64, j.signature.len()))
            } else {
                Ok(j)
            },
        },
    }
}

/// What decoding one transform-block record yields.
pub open spec fn decode_block_spec(b: TransformBlockModel) -> Result<
    TransformBlockModel,
    ErrorModel,
> {
    match decode_public_key_spec(b.public_key) {
        Err(e) => Err(e),
        Ok(_) => if b.encrypted_temp_key.len() != 384 {
            Err(size_mismatch("transformBlock.encryptedTempKey"@, 384, b.encrypted_temp_key.len()))
        } else {
            match decode_public_key_spec(b.random_transform_public_key) {
                Err(e) => Err(e),
                Ok(_) => if b.random_transform_encrypted_temp_key.len() != 384 {
                    Err(
                        size_mismatch(
                            "transformBlock.randomTransformEncryptedTempKey"@,
                            384,
                            b.random_transform_encrypted_temp_key.len(),
                        ),
                    )
                } else {
                    Ok(b)
                },
            }
        },
    }
}

/// What decoding a list of transform-block records yields: the list itself
/// when every block decodes, else the first failing block's error.
pub open spec fn decode_block_list_spec(bs: Seq<TransformBlockModel>) -> Result<
    Seq<TransformBlockModel>,
    ErrorModel,
>
    decreases bs.len(),
{
    if bs.len() == 0 {
        Ok(Seq::empty())
    } else {
        match decode_block_spec(bs[0]) {
            Err(e) => Err(e),
            Ok(b) => match decode_block_list_spec(bs.drop_first()) {
                Err(e) => Err(e),
                Ok(rest) => Ok(seq![b] + rest),
            },
        }
    }
}

/// What constructing a non-empty chain from a block-record list yields: the
/// decoded list, or the dedicated empty-chain error when there is no block.
pub open spec fn decode_blocks_spec(bs: Seq<TransformBlockModel>) -> Result<
    Seq<TransformBlockModel>,
    ErrorModel,
> {
    if bs.len() == 0 {
        Err(ErrorModel::EmptyChain)
    } else {
        decode_block_list_spec(bs)
    }
}

/// What decoding an encrypted-value record yields: variant selection on the
/// block list, empty meaning encrypted-once.
pub open spec fn decode_encrypted_value_spec(j: EncryptedValueRecordModel) -> Result<
    EncryptedValueModel,
    ErrorModel,
> {
    match decode_public_key_spec(j.ephemeral_public_key) {
        Err(e) => Err(e),
        Ok(_) => if j.encrypted_message.len() != 384 {
            Err(size_mismatch("encryptedMessage"@, 384, j.encrypted_message.len()))
        } else if j.auth_hash.len() != 32 {
            Err(size_mismatch("authHash"@, 32, j.auth_hash.len()))
        } else if j.public_signing_key.len() != 32 {
            Err(size_mismatch("publicSigningKey"@, 32, j.public_signing_key.len()))
        } else if j.signature.len() != 64 {
            Err(size_mismatch("signature"@, 64, j.signature.len()))
        } else if j.transform_blocks.len() == 0 {
            Ok(
                EncryptedValueModel::Once {
                    ephemeral_public_key: j.ephemeral_public_key,
                    encrypted_message: j.encrypted_message,
                    auth_hash: j.auth_hash,
                    public_signing_key: j.public_signing_key,
                    signature: j.signature,
                },
            )
        } else {
            match decode_block_list_spec(j.transform_blocks) {
                Err(e) => Err(e),
                Ok(bs) => Ok(
                    EncryptedValueModel::Transformed {
                        ephemeral_public_key: j.ephemeral_public_key,
                        encrypted_message: j.encrypted_message,
                        auth_hash: j.auth_hash,
                        public_signing_key: j.public_signing_key,
                        signature: j.signature,
                        transform_blocks: bs,
                    },
                ),
            }
        },
    }
}

/// A decoded block list is the list itself, and decoding succeeds exactly on
/// lists whose blocks are all well-formed.
pub proof fn lemma_decode_block_list_ok(bs: Seq<TransformBlockModel>)
    ensures
        decode_block_list_spec(bs) matches Ok(v) ==> v == bs && (forall|i: int|
            0 <= i < bs.len() ==> block_wf(#[trigger] bs[i])),
    decreases bs.len(),
{
    if bs.len() == 0 {
        assert(bs =~= Seq::<TransformBlockModel>::empty());
    } else {
        lemma_decode_block_list_ok(bs.drop_first());
        if decode_block_spec(bs[0]) is Ok && decode_block_list_spec(bs.drop_first()) is Ok {
            assert(seq![bs[0]] + bs.drop_first() =~= bs);
            assert forall|i: int| 0 <= i < bs.len() implies block_wf(#[trigger] bs[i]) by {
                if i > 0 {
                    assert(bs[i] == bs.drop_first()[i - 1]);
                }
            }
        }
    }
}

/// Decoding a block list whose first `i` blocks are well-formed: the whole
/// list decodes when `i` covers it; the block at `i`, if it fails, decides.
pub proof fn lemma_decode_block_list_at(bs: Seq<TransformBlockModel>, i: int)
    requires
        0 <= i <= bs.len(),
        forall|j: int| 0 <= j < i ==> block_wf(#[trigger] bs[j]),
    ensures
        i == bs.len() ==> decode_block_list_spec(bs) == Ok::<_, ErrorModel>(bs),
        i < bs.len() && decode_block_spec(bs[i]) is Err ==> decode_block_list_spec(bs)
            == Err::<Seq<TransformBlockModel>, ErrorModel>(decode_block_spec(bs[i])->Err_0),
    decreases bs.len(),
{
    if bs.len() == 0 {
        assert(Seq::<TransformBlockModel>::empty() =~= bs);
    } else if i == 0 {
        if decode_block_spec(bs[0]) is Err {
        } else {
            // i == 0 == bs.len() is impossible here since bs.len() > 0
        }
    } else {
        assert(block_wf(bs[0]));
        assert(decode_block_spec(bs[0]) == Ok::<_, ErrorModel>(bs[0]));
        let rest = bs.drop_first();
        assert(forall|j: int| 0 <= j < i - 1 ==> block_wf(#[trigger] rest[j]));
        lemma_decode_block_list_at(rest, i - 1);
        if i == bs.len() {
            assert(seq![bs[0]] + rest =~= bs);
        } else {
            assert(rest[i - 1] == bs[i]);
        }
    }
}

/// Round trip for public keys: a well-formed key decodes to itself.
pub proof fn lemma_public_key_round_trip(m: PublicKeyModel)
    requires
        pk_wf(m),
    ensures
        decode_public_key_spec(m) == Ok::<_, ErrorModel>(m),
{
}

/// Round trip for transform keys: a well-formed key decodes to itself.
pub proof fn lemma_transform_key_round_trip(m: TransformKeyModel)
    requires
        tk_wf(m),
    ensures
        decode_transform_key_spec(m) == Ok::<_, ErrorModel>(m),
{
}

/// Round trip for public-key records: a record that decodes, encoded again,
/// is the same record (decoding is the identity on its accepted records).
pub proof fn lemma_public_key_record_round_trip(j: PublicKeyModel)
    requires
        decode_public_key_spec(j) is Ok,
    ensures
        decode_public_key_spec(j)->Ok_0 == j,
{
}

/// Round trip for transform-key records: a record that decodes, encoded
/// again, is the same record.
pub proof fn lemma_transform_key_record_round_trip(j: TransformKeyModel)
    requires
        decode_transform_key_spec(j) is Ok,
    ensures
        decode_transform_key_spec(j)->Ok_0 == j,
{
}

/// Round trip for encrypted values: encoding a well-formed value to its wire
/// record and decoding that record yields the value again, the variant chosen
/// by whether the chain is empty.
pub proof fn lemma_encrypted_value_round_trip(m: EncryptedValueModel)
    requires
        ev_wf(m),
    ensures
        decode_encrypted_value_spec(ev_to_record(m)) == Ok::<_, ErrorModel>(m),
{
    match m {
        EncryptedValueModel::Once { .. } => {
        },
        EncryptedValueModel::Transformed { transform_blocks, .. } => {
            lemma_decode_block_list_at(transform_blocks, transform_blocks.len() as int);
        },
    }
}

/// Round trip for encrypted-value records: a record that decodes, encoded
/// again, is the same record.
pub proof fn lemma_encrypted_value_record_round_trip(j: EncryptedValueRecordModel)
    requires
        decode_encrypted_value_spec(j) is Ok,
    ensures
        ev_to_record(decode_encrypted_value_spec(j)->Ok_0) == j,
{
    lemma_decode_block_list_ok(j.transform_blocks);
    if j.transform_blocks.len() == 0 {
        assert(ev_to_record(decode_encrypted_value_spec(j)->Ok_0) =~= j);
    } else {
        assert(ev_to_record(decode_encrypted_value_spec(j)->Ok_0) =~= j);
    }
}

/// Decode a public-key record, validating both coordinate widths.
pub fn js_object_to_public_key(j: &JsPublicKey) -> (r: Result<PublicKey256, ApiError>)
    ensures
        res_view(r) == decode_public_key_spec(j@),
        r matches Ok(v) ==> v.wf(),
{
    let x = match to_fixed(&j.x, 32, "publicKey.x") {
        Ok(v) => v,
        Err(e) => return Err(e),
    };
    let y = match to_fixed(&j.y, 32, "publicKey.y") {
        Ok(v) => v,
        Err(e) => return Err(e),
    };
    Ok(PublicKey256 { x, y })
}

/// Encode a public key into its host record.
pub fn public_key_to_js_object(public_key: &PublicKey256) -> (r: JsPublicKey)
    ensures
        r@ == public_key@,
{
    JsPublicKey { x: copy_bytes(&public_key.x), y: copy_bytes(&public_key.y) }
}

/// Pair a private key with its public key as a host record.
pub fn key_pair_to_js_object(private_key: Vec<u8>, public_key: PublicKey256) -> (r: JsKeyPair)
    ensures
        r.privateKey@ == private_key@,
        r.publicKey@ == public_key@,
{
    let publicKey = public_key_to_js_object(&public_key);
    JsKeyPair { privateKey: private_key, publicKey }
}

/// Split a 64-byte signing key pair into its host record: the whole buffer as
/// the private key, its second half as the public key.
pub fn signing_keys_to_js_object(signing_key_pair: &Vec<u8>) -> (r: JsSigningKeyPair)
    requires
        signing_key_pair@.len() == 64,
    ensures
        r.privateKey@ == signing_key_pair@,
        r.publicKey@ == signing_key_pair@.subrange(32, 64),
{
    let mut publicKey: Vec<u8> = Vec::new();
    let mut i: usize = 32;
    while i < 64
        invariant
            32 <= i <= 64,
            signing_key_pair@.len() == 64,
            publicKey@.len() == i - 32,
            forall|j: int| 0 <= j < i - 32 ==> publicKey@[j] == signing_key_pair@[j + 32],
        decreases 64 - i,
    {
        publicKey.push(signing_key_pair[i]);
        i = i + 1;
    }
    proof {
        assert(publicKey@ =~= signing_key_pair@.subrange(32, 64));
    }
    JsSigningKeyPair { privateKey: copy_bytes(signing_key_pair), publicKey }
}

/// Decode a transform-key record, validating every field width in wire order.
pub fn js_object_to_transform_key(j: &JsTransformKey) -> (r: Result<TransformKey256, ApiError>)
    ensures
        res_view(r) == decode_transform_key_spec(j@),
        r matches Ok(v) ==> v.wf(),
{
    let ephemeral_public_key = match js_object_to_public_key(&j.ephemeralPublicKey) {
        Ok(v) => v,
        Err(e) => return Err(e),
    };
    let to_public_key = match js_object_to_public_key(&j.toPublicKey) {
        Ok(v) => v,
        Err(e) => return Err(e),
    };
    let encrypted_temp_key = match to_fixed(&j.encryptedTempKey, 384, "encryptedTempKey") {
        Ok(v) => v,
        Err(e) => return Err(e),
    };
    let hashed_temp_key = match to_fixed(&j.hashedTempKey, 128, "hashedTempKey") {
        Ok(v) => v,
        Err(e) => return Err(e),
    };
    let public_signing_key = match to_fixed(&j.publicSigningKey, 32, "publicSigningKey") {
        Ok(v) => v,
        Err(e) => return Err(e),
    };
    let signature = match to_fixed(&j.signature, 64, "signature") {
        Ok(v) => v,
        Err(e) => return Err(e),
    };
    Ok(
        TransformKey256 {
            encrypted_temp_key,
            ephemeral_public_key,
            hashed_temp_key,
            public_signing_key,
            signature,
            to_public_key,
        },
    )
}

/// Encode a transform key into its host record.
pub fn transform_key_to_js_object(transform_key: &TransformKey256) -> (r: JsTransformKey)
    ensures
        r@ == transform_key@,
{
    JsTransformKey {
        encryptedTempKey: copy_bytes(&transform_key.encrypted_temp_key),
        ephemeralPublicKey: public_key_to_js_object(&transform_key.ephemeral_public_key),
        hashedTempKey: copy_bytes(&transform_key.hashed_temp_key),
        publicSigningKey: copy_bytes(&transform_key.public_signing_key),
        signature: copy_bytes(&transform_key.signature),
        toPublicKey: public_key_to_js_object(&transform_key.to_public_key),
    }
}

/// Decode one transform-block record.
fn js_object_to_transform_block(b: &JsTransformBlock) -> (r: Result<TransformBlock256, ApiError>)
    ensures
        res_view(r) == decode_block_spec(b@),
        r matches Ok(v) ==> v.wf(),
{
    let public_key = match js_object_to_public_key(&b.publicKey) {
        Ok(v) => v,
        Err(e) => return Err(e),
    };
    let encrypted_temp_key = match to_fixed(
        &b.encryptedTempKey,
        384,
        "transformBlock.encryptedTempKey",
    ) {
        Ok(v) => v,
        Err(e) => return Err(e),
    };
    let random_transform_public_key = match js_object_to_public_key(&b.randomTransformPublicKey) {
        Ok(v) => v,
        Err(e) => return Err(e),
    };
    let random_transform_encrypted_temp_key = match to_fixed(
        &b.randomTransformEncryptedTempKey,
        384,
        "transformBlock.randomTransformEncryptedTempKey",
    ) {
        Ok(v) => v,
        Err(e) => return Err(e),
    };
    Ok(
        TransformBlock256 {
            public_key,
            encrypted_temp_key,
            random_transform_public_key,
            random_transform_encrypted_temp_key,
        },
    )
}

/// Encode one transform block into its host record.
fn transform_block_to_js_object(b: &TransformBlock256) -> (r: JsTransformBlock)
    ensures
        r@ == b@,
{
    JsTransformBlock {
        publicKey: public_key_to_js_object(&b.public_key),
        encryptedTempKey: copy_bytes(&b.encrypted_temp_key),
        randomTransformPublicKey: public_key_to_js_object(&b.random_transform_public_key),
        randomTransformEncryptedTempKey: copy_bytes(&b.random_transform_encrypted_temp_key),
    }
}

/// Decode a list of transform-block records into a non-empty chain; an empty
/// list is the dedicated empty-chain error, never a size mismatch.
pub fn js_object_to_transform_blocks(blocks: &Vec<JsTransformBlock>) -> (r: Result<
    TransformChain,
    ApiError,
>)
    ensures
        res_view(r) == decode_blocks_spec(blocks@.map_values(|b: JsTransformBlock| b@)),
        r matches Ok(c) ==> c.wf() && c@ == blocks@.map_values(|b: JsTransformBlock| b@),
{
    let ghost m = blocks@.map_values(|b: JsTransformBlock| b@);
    if blocks.len() == 0 {
        return Err(ApiError::EmptyChain);
    }
    let mut out: Vec<TransformBlock256> = Vec::new();
    let mut i: usize = 0;
    while i < blocks.len()
        invariant
            i <= blocks@.len(),
            m == blocks@.map_values(|b: JsTransformBlock| b@),
            m.len() == blocks@.len(),
            out@.len() == i,
            forall|j: int| 0 <= j < i ==> block_wf(#[trigger] m[j]),
            forall|j: int| 0 <= j < i ==> (#[trigger] out@[j])@ == m[j],
        decreases blocks@.len() - i,
    {
        assert(m[i as int] == blocks@[i as int]@);
        match js_object_to_transform_block(&blocks[i]) {
            Ok(b) => {
                out.push(b);
            },
            Err(e) => {
                proof {
                    lemma_decode_block_list_at(m, i as int);
                }
                return Err(e);
            },
        }
        i = i + 1;
    }
    proof {
        lemma_decode_block_list_at(m, m.len() as int);
    }
    let first = out.remove(0);
    let chain = TransformChain { first, rest: out };
    proof {
        assert(chain@ =~= m);
    }
    Ok(chain)
}

/// Encode a transform chain into a list of block records, order preserved.
pub fn transform_blocks_to_js_object(transform_blocks: &TransformChain) -> (r: Vec<
    JsTransformBlock,
>)
    ensures
        r@.map_values(|b: JsTransformBlock| b@) == transform_blocks@,
{
    let mut out: Vec<JsTransformBlock> = Vec::new();
    out.push(transform_block_to_js_object(&transform_blocks.first));
    let mut i: usize = 0;
    while i < transform_blocks.rest.len()
        invariant
            i <= transform_blocks.rest@.len(),
            out@.len() == i + 1,
            out@[0]@ == transform_blocks.first@,
            forall|j: int| 1 <= j < i + 1 ==> (#[trigger] out@[j])@ == transform_blocks.rest@[j
                - 1]@,
        decreases transform_blocks.rest@.len() - i,
    {
        out.push(transform_block_to_js_object(&transform_blocks.rest[i]));
        i = i + 1;
    }
    proof {
        assert(out@.map_values(|b: JsTransformBlock| b@) =~= transform_blocks@);
    }
    out
}

/// Decode an encrypted-value record, selecting the variant from the block
/// list: empty means encrypted once, otherwise every block must decode and
/// the chain is kept in order.
pub fn js_object_to_encrypted_value(j: &JsEncryptedValue) -> (r: Result<EncryptedValue256, ApiError>)
    ensures
        res_view(r) == decode_encrypted_value_spec(j@),
        r matches Ok(v) ==> v.wf(),
{
    let ephemeral_public_key = match js_object_to_public_key(&j.ephemeralPublicKey) {
        Ok(v) => v,
        Err(e) => return Err(e),
    };
    let encrypted_message = match to_fixed(&j.encryptedMessage, 384, "encryptedMessage") {
        Ok(v) => v,
        Err(e) => return Err(e),
    };
    let auth_hash = match to_fixed(&j.authHash, 32, "authHash") {
        Ok(v) => v,
        Err(e) => return Err(e),
    };
    let public_signing_key = match to_fixed(&j.publicSigningKey, 32, "publicSigningKey") {
        Ok(v) => v,
        Err(e) => return Err(e),
    };
    let signature = match to_fixed(&j.signature, 64, "signature") {
        Ok(v) => v,
        Err(e) => return Err(e),
    };
    if j.transformBlocks.len() == 0 {
        Ok(
            EncryptedValue256::EncryptedOnceValue {
                ephemeral_public_key,
                encrypted_message,
                auth_hash,
                public_signing_key,
                signature,
            },
        )
    } else {
        let transform_blocks = match js_object_to_transform_blocks(&j.transformBlocks) {
            Ok(c) => c,
            Err(e) => return Err(e),
        };
        Ok(
            EncryptedValue256::TransformedValue {
                ephemeral_public_key,
                encrypted_message,
                auth_hash,
                public_signing_key,
                signature,
                transform_blocks,
            },
        )
    }
}

/// Encode an encrypted value into its wire record; a once-encrypted value
/// carries an empty block list.
pub fn encrypted_value_to_js_object(encrypted_value: &EncryptedValue256) -> (r: JsEncryptedValue)
    ensures
        r@ == ev_to_record(encrypted_value@),
{
    match encrypted_value {
        EncryptedValue256::EncryptedOnceValue {
            ephemeral_public_key,
            encrypted_message,
            auth_hash,
            public_signing_key,
            signature,
        } => {
            let r = JsEncryptedValue {
                authHash: copy_bytes(auth_hash),
                encryptedMessage: copy_bytes(encrypted_message),
                ephemeralPublicKey: public_key_to_js_object(ephemeral_public_key),
                publicSigningKey: copy_bytes(public_signing_key),
                signature: copy_bytes(signature),
                transformBlocks: Vec::new(),
            };
            proof {
                assert(r@.transform_blocks =~= ev_to_record(encrypted_value@).transform_blocks);
            }
            r
        },
        EncryptedValue256::TransformedValue {
            ephemeral_public_key,
            encrypted_message,
            auth_hash,
            public_signing_key,
            signature,
            transform_blocks,
        } => {
            JsEncryptedValue {
                authHash: copy_bytes(auth_hash),
                encryptedMessage: copy_bytes(encrypted_message),
                ephemeralPublicKey: public_key_to_js_object(ephemeral_public_key),
                publicSigningKey: copy_bytes(public_signing_key),
                signature: copy_bytes(signature),
                transformBlocks: transform_blocks_to_js_object(transform_blocks),
            }
        },
    }
}

} // verus!
