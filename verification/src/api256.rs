//! The boundary entry points: every operation validates its buffers through
//! the fixed-size codec and the marshalers, hands validated values to the
//! engine wrappers, and converts results back into host records.
//!
//! Each contract pins down exactly which validation error surfaces first,
//! when the operation is owed success, and what is known of the result.

use crate::codec::append_bytes;
use crate::codec::check_width;
use crate::codec::size_mismatch;
use crate::codec::to_fixed;
use crate::engine::augmented_hashed_key;
use crate::engine::decrypt_result;
use crate::engine::etk_canon;
use crate::engine::hashed_value_ok;
use crate::engine::once_signed_bytes;
use crate::engine::pk_canon;
use crate::engine::pk_scalar_ok;
use crate::engine::scalar_canon;
use crate::engine::augmented_public_key;
use crate::engine::ed25519_signature_of;
use crate::engine::ed25519_verifies;
use crate::engine::engine_add_private_keys;
use crate::engine::engine_augment_public_key;
use crate::engine::engine_augment_transform_key;
use crate::engine::engine_compute_ed25519_public_key;
use crate::engine::engine_ed25519_sign;
use crate::engine::engine_ed25519_verify;
use crate::engine::engine_hash256;
use crate::engine::engine_subtract_private_keys;
use crate::engine::plaintext_canon;
use crate::engine::private_key_diff;
use crate::engine::private_key_sum;
use crate::engine::public_key_of;
use crate::engine::schnorr_verifies;
use crate::engine::sha256_of;
use crate::engine::signing_keypair_valid;
use crate::engine::Api256;
use crate::errors::errs_with;
use crate::errors::is_engine_reported;
use crate::errors::ApiError;
use crate::marshal::decode_encrypted_value_spec;
use crate::marshal::decode_public_key_spec;
use crate::marshal::decode_transform_key_spec;
use crate::marshal::encrypted_value_to_js_object;
use crate::marshal::js_object_to_encrypted_value;
use crate::marshal::js_object_to_public_key;
use crate::marshal::js_object_to_transform_key;
use crate::marshal::key_pair_to_js_object;
use crate::marshal::public_key_to_js_object;
use crate::marshal::signing_keys_to_js_object;
use crate::marshal::transform_key_to_js_object;
use crate::models::ev_hops;
use crate::models::opt_view;
use crate::models::pk_wf;
use crate::models::tk_wf;
use crate::models::TransformKeyModel;
use crate::records::JsEncryptedValue;
use crate::records::JsKeyPair;
use crate::records::JsPublicKey;
use crate::records::JsSigningKeyPair;
use crate::records::JsTransformKey;
use vstd::prelude::*;

verus! {

/// The canonical byte concatenation a transform key is signed over:
/// ephemeral key x then y, delegatee key x then y, encrypted temp key,
/// hashed temp key, public signing key.
pub open spec fn transform_key_bytes_spec(m: TransformKeyModel) -> Seq<u8> {
    m.ephemeral_public_key.x + m.ephemeral_public_key.y + m.to_public_key.x + m.to_public_key.y
        + m.encrypted_temp_key + m.hashed_temp_key + m.public_signing_key
}

impl Api256 {
    /// Generate a fresh key pair; the record's public key is the engine's
    /// deterministic image of its private key.
    pub fn generateKeyPair(&self) -> (r: Result<JsKeyPair, ApiError>)
        ensures
            r matches Ok(kp) ==> kp.privateKey@.len() == 32 && pk_wf(kp.publicKey@)
                && pk_scalar_ok(kp.privateKey@) && (kp.publicKey.x@, kp.publicKey.y@)
                == public_key_of(kp.privateKey@),
            r matches Err(e) ==> is_engine_reported(e@),
    {
        match self.engine_generate_key_pair() {
            Ok((private_key, public_key)) => Ok(key_pair_to_js_object(private_key, public_key)),
            Err(e) => Err(e),
        }
    }

    /// Generate a fresh ed25519 signing key pair; the public half is the
    /// second half of the private buffer, and the pair is consistent.
    pub fn generateEd25519KeyPair(&self) -> (r: JsSigningKeyPair)
        ensures
            r.privateKey@.len() == 64,
            r.publicKey@ == r.privateKey@.subrange(32, 64),
            signing_keypair_valid(r.privateKey@),
    {
        let signing_key_pair = self.engine_generate_ed25519_key_pair();
        signing_keys_to_js_object(&signing_key_pair)
    }

    /// Sign a message with a 64-byte signing private key: a size mismatch on
    /// any other width, the engine's rejection of an inconsistent pair, and
    /// otherwise the deterministic 64-byte signature, which verifies under
    /// the pair's public half.
    pub fn ed25519Sign(&self, signing_private_key: &Vec<u8>, message: &Vec<u8>) -> (r: Result<
        Vec<u8>,
        ApiError,
    >)
        ensures
            signing_private_key@.len() != 64 ==> errs_with(
                r,
                size_mismatch("privateSigningKey"@, 64, signing_private_key@.len()),
            ),
            signing_private_key@.len() == 64 ==> (r is Ok <==> signing_keypair_valid(
                signing_private_key@,
            )),
            r matches Ok(s) ==> s@ == ed25519_signature_of(signing_private_key@, message@)
                && s@.len() == 64 && ed25519_verifies(
                signing_private_key@.subrange(32, 64),
                message@,
                s@,
            ),
            r matches Err(e) ==> signing_private_key@.len() == 64 ==> e@ is InvalidKey,
    {
        match check_width(signing_private_key, 64, "privateSigningKey") {
            Ok(_) => engine_ed25519_sign(signing_private_key, message),
            Err(e) => Err(e),
        }
    }

    /// Verify an ed25519 signature. This never fails: a public key or
    /// signature of the wrong width yields false, and otherwise the verdict
    /// is the engine's.
    pub fn ed25519Verify(
        &self,
        signing_public_key: &Vec<u8>,
        message: &Vec<u8>,
        signature: &Vec<u8>,
    ) -> (r: bool)
        ensures
            signing_public_key@.len() == 32 && signature@.len() == 64 ==> r == ed25519_verifies(
                signing_public_key@,
                message@,
                signature@,
            ),
            !(signing_public_key@.len() == 32 && signature@.len() == 64) ==> r == false,
    {
        if signing_public_key.len() == 32 && signature.len() == 64 {
            engine_ed25519_verify(signing_public_key, message, signature)
        } else {
            false
        }
    }

    /// Compute the public half of a 64-byte signing key pair: its second 32
    /// bytes, after the engine accepts the pair as consistent.
    pub fn computeEd25519PublicKey(&self, signing_private_key: &Vec<u8>) -> (r: Result<
        Vec<u8>,
        ApiError,
    >)
        ensures
            signing_private_key@.len() != 64 ==> errs_with(
                r,
                size_mismatch("privateSigningKey"@, 64, signing_private_key@.len()),
            ),
            signing_private_key@.len() == 64 ==> (r is Ok <==> signing_keypair_valid(
                signing_private_key@,
            )),
            r matches Ok(p) ==> p@ == signing_private_key@.subrange(32, 64),
            r matches Err(e) ==> signing_private_key@.len() == 64 ==> e@ is InvalidKey,
    {
        match check_width(signing_private_key, 64, "privateSigningKey") {
            Ok(_) => engine_compute_ed25519_public_key(signing_private_key),
            Err(e) => Err(e),
        }
    }

    /// Generate a random 384-byte plaintext, already in its canonical
    /// encoding.
    pub fn generatePlaintext(&self) -> (r: Vec<u8>)
        ensures
            r@.len() == 384,
            plaintext_canon(r@) == r@,
    {
        self.engine_generate_plaintext()
    }

    /// Generate a transform key delegating from the private key's holder to
    /// the public key's holder, signed with the signing key whose public
    /// half the result embeds.
    pub fn generateTransformKey(
        &self,
        from_private_key: &Vec<u8>,
        to_public_key: &JsPublicKey,
        private_signing_key: &Vec<u8>,
    ) -> (r: Result<JsTransformKey, ApiError>)
        ensures
            from_private_key@.len() != 32 ==> errs_with(
                r,
                size_mismatch("privateKey"@, 32, from_private_key@.len()),
            ),
            from_private_key@.len() == 32 && decode_public_key_spec(to_public_key@) is Err
                ==> errs_with(r, decode_public_key_spec(to_public_key@)->Err_0),
            from_private_key@.len() == 32 && decode_public_key_spec(to_public_key@) is Ok
                && private_signing_key@.len() != 64 ==> errs_with(
                r,
                size_mismatch("privateSigningKey"@, 64, private_signing_key@.len()),
            ),
            r matches Ok(tk) ==> tk_wf(tk@) && Some((tk.toPublicKey.x@, tk.toPublicKey.y@))
                == pk_canon(to_public_key.x@, to_public_key.y@) && tk.publicSigningKey@
                == private_signing_key@.subrange(32, 64),
            r matches Err(e) ==> from_private_key@.len() == 32 && decode_public_key_spec(
                to_public_key@,
            ) is Ok && private_signing_key@.len() == 64 ==> is_engine_reported(e@),
    {
        let from_key = match to_fixed(from_private_key, 32, "privateKey") {
            Ok(v) => v,
            Err(e) => return Err(e),
        };
        let to_key = match js_object_to_public_key(to_public_key) {
            Ok(v) => v,
            Err(e) => return Err(e),
        };
        match check_width(private_signing_key, 64, "privateSigningKey") {
            Ok(_) => {},
            Err(e) => return Err(e),
        }
        match self.engine_generate_transform_key(&from_key, &to_key, private_signing_key) {
            Ok(tk) => Ok(transform_key_to_js_object(&tk)),
            Err(e) => Err(e),
        }
    }

    /// Compute the public key of a 32-byte private key: the engine's
    /// deterministic image, or its rejection of the scalar.
    pub fn computePublicKey(&self, private_key: &Vec<u8>) -> (r: Result<JsPublicKey, ApiError>)
        ensures
            private_key@.len() != 32 ==> errs_with(
                r,
                size_mismatch("privateKey"@, 32, private_key@.len()),
            ),
            private_key@.len() == 32 ==> (r is Ok <==> pk_scalar_ok(private_key@)),
            r matches Ok(p) ==> pk_wf(p@) && (p.x@, p.y@) == public_key_of(private_key@),
            r matches Err(e) ==> private_key@.len() == 32 ==> is_engine_reported(e@),
    {
        let key = match to_fixed(private_key, 32, "privateKey") {
            Ok(v) => v,
            Err(e) => return Err(e),
        };
        match self.engine_compute_public_key(&key) {
            Ok(p) => Ok(public_key_to_js_object(&p)),
            Err(e) => Err(e),
        }
    }

    /// Hash any bytes to exactly 32: the deterministic SHA-256 digest.
    pub fn hash256(&self, hashable_bytes: &Vec<u8>) -> (r: Vec<u8>)
        ensures
            r@ == sha256_of(hashable_bytes@),
            r@.len() == 32,
    {
        engine_hash256(hashable_bytes)
    }

    /// Derive the symmetric key of a 384-byte plaintext: the SHA-256 digest
    /// of its canonical re-encoding, a pure function of the plaintext.
    pub fn deriveSymmetricKey(&self, plaintext: &Vec<u8>) -> (r: Result<Vec<u8>, ApiError>)
        ensures
            plaintext@.len() != 384 ==> errs_with(
                r,
                size_mismatch("plaintext"@, 384, plaintext@.len()),
            ),
            plaintext@.len() == 384 ==> r is Ok,
            r matches Ok(k) ==> k@ == sha256_of(plaintext_canon(plaintext@)) && k@.len() == 32,
    {
        match check_width(plaintext, 384, "plaintext") {
            Ok(_) => Ok(self.engine_derive_symmetric_key(plaintext)),
            Err(e) => Err(e),
        }
    }

    /// Encrypt a 384-byte plaintext to a public key: a once-encrypted value
    /// with an empty block list, embedding the signing key's public half,
    /// whose record decodes back, whose signature covers every field, and
    /// which decrypts to the plaintext's canonical form under any private
    /// key whose image is the target key.
    pub fn encrypt(
        &self,
        plaintext: &Vec<u8>,
        to_public_key: &JsPublicKey,
        private_signing_key: &Vec<u8>,
    ) -> (r: Result<JsEncryptedValue, ApiError>)
        ensures
            plaintext@.len() != 384 ==> errs_with(
                r,
                size_mismatch("plaintext"@, 384, plaintext@.len()),
            ),
            plaintext@.len() == 384 && decode_public_key_spec(to_public_key@) is Err ==> errs_with(
                r,
                decode_public_key_spec(to_public_key@)->Err_0,
            ),
            plaintext@.len() == 384 && decode_public_key_spec(to_public_key@) is Ok
                && private_signing_key@.len() != 64 ==> errs_with(
                r,
                size_mismatch("privateSigningKey"@, 64, private_signing_key@.len()),
            ),
            r matches Ok(ev) ==> ev.transformBlocks@.len() == 0 && ev.publicSigningKey@
                == private_signing_key@.subrange(32, 64) && decode_encrypted_value_spec(ev@) is Ok
                && ed25519_verifies(
                ev.publicSigningKey@,
                once_signed_bytes(
                    ev.publicSigningKey@,
                    ev.ephemeralPublicKey.x@,
                    ev.ephemeralPublicKey.y@,
                    ev.encryptedMessage@,
                    ev.authHash@,
                ),
                ev.signature@,
            ),
            r matches Ok(ev) ==> (forall|private_key: Seq<u8>|
                private_key.len() == 32 && pk_scalar_ok(private_key) && public_key_of(private_key)
                    == (to_public_key.x@, to_public_key.y@) ==> #[trigger] decrypt_result(
                    decode_encrypted_value_spec(ev@)->Ok_0,
                    private_key,
                ) == Some(plaintext_canon(plaintext@))),
            r matches Err(e) ==> plaintext@.len() == 384 && decode_public_key_spec(
                to_public_key@,
            ) is Ok && private_signing_key@.len() == 64 ==> is_engine_reported(e@),
    {
        let pt = match to_fixed(plaintext, 384, "plaintext") {
            Ok(v) => v,
            Err(e) => return Err(e),
        };
        let to_key = match js_object_to_public_key(to_public_key) {
            Ok(v) => v,
            Err(e) => return Err(e),
        };
        match check_width(private_signing_key, 64, "privateSigningKey") {
            Ok(_) => {},
            Err(e) => return Err(e),
        }
        match self.engine_encrypt(&pt, &to_key, private_signing_key) {
            Ok(ev) => {
                let record = encrypted_value_to_js_object(&ev);
                proof {
                    crate::marshal::lemma_encrypted_value_round_trip(ev@);
                }
                Ok(record)
            },
            Err(e) => Err(e),
        }
    }

    /// Transform an encrypted value for the next recipient: the result's
    /// chain is one block longer than the input's, and the result embeds the
    /// signing key's public half.
    pub fn transform(
        &self,
        encrypted_value: &JsEncryptedValue,
        transform_key: &JsTransformKey,
        private_signing_key: &Vec<u8>,
    ) -> (r: Result<JsEncryptedValue, ApiError>)
        ensures
            decode_encrypted_value_spec(encrypted_value@) is Err ==> errs_with(
                r,
                decode_encrypted_value_spec(encrypted_value@)->Err_0,
            ),
            decode_encrypted_value_spec(encrypted_value@) is Ok && decode_transform_key_spec(
                transform_key@,
            ) is Err ==> errs_with(r, decode_transform_key_spec(transform_key@)->Err_0),
            decode_encrypted_value_spec(encrypted_value@) is Ok && decode_transform_key_spec(
                transform_key@,
            ) is Ok && private_signing_key@.len() != 64 ==> errs_with(
                r,
                size_mismatch("privateSigningKey"@, 64, private_signing_key@.len()),
            ),
            r matches Ok(out) ==> decode_encrypted_value_spec(encrypted_value@) is Ok
                && out.transformBlocks@.len() == ev_hops(
                decode_encrypted_value_spec(encrypted_value@)->Ok_0,
            ) + 1 && out.publicSigningKey@ == private_signing_key@.subrange(32, 64)
                && decode_encrypted_value_spec(out@) is Ok,
            r matches Err(e) ==> decode_encrypted_value_spec(encrypted_value@) is Ok
                && decode_transform_key_spec(transform_key@) is Ok && private_signing_key@.len()
                == 64 ==> is_engine_reported(e@),
    {
        let ev = match js_object_to_encrypted_value(encrypted_value) {
            Ok(v) => v,
            Err(e) => return Err(e),
        };
        let tk = match js_object_to_transform_key(transform_key) {
            Ok(v) => v,
            Err(e) => return Err(e),
        };
        match check_width(private_signing_key, 64, "privateSigningKey") {
            Ok(_) => {},
            Err(e) => return Err(e),
        }
        match self.engine_transform(&ev, &tk, private_signing_key) {
            Ok(out) => {
                let record = encrypted_value_to_js_object(&out);
                proof {
                    crate::marshal::lemma_encrypted_value_round_trip(out@);
                }
                Ok(record)
            },
            Err(e) => Err(e),
        }
    }

    /// Decrypt an encrypted value with the final recipient's 32-byte private
    /// key, recovering the 384-byte plaintext.
    pub fn decrypt(&self, encrypted_value: &JsEncryptedValue, private_key: &Vec<u8>) -> (r: Result<
        Vec<u8>,
        ApiError,
    >)
        ensures
            decode_encrypted_value_spec(encrypted_value@) is Err ==> errs_with(
                r,
                decode_encrypted_value_spec(encrypted_value@)->Err_0,
            ),
            decode_encrypted_value_spec(encrypted_value@) is Ok && private_key@.len() != 32
                ==> errs_with(r, size_mismatch("privateKey"@, 32, private_key@.len())),
            decode_encrypted_value_spec(encrypted_value@) is Ok && private_key@.len() == 32 ==> (
            r is Ok <==> decrypt_result(
                decode_encrypted_value_spec(encrypted_value@)->Ok_0,
                private_key@,
            ) is Some),
            r matches Ok(p) ==> p@.len() == 384 && decode_encrypted_value_spec(encrypted_value@)
                is Ok && Some(p@) == decrypt_result(
                decode_encrypted_value_spec(encrypted_value@)->Ok_0,
                private_key@,
            ),
            r matches Err(e) ==> decode_encrypted_value_spec(encrypted_value@) is Ok
                && private_key@.len() == 32 ==> is_engine_reported(e@),
    {
        let ev = match js_object_to_encrypted_value(encrypted_value) {
            Ok(v) => v,
            Err(e) => return Err(e),
        };
        let key = match to_fixed(private_key, 32, "privateKey") {
            Ok(v) => v,
            Err(e) => return Err(e),
        };
        self.engine_decrypt(&ev, &key)
    }

    /// Schnorr-sign a message with a private key and its public key: a
    /// 64-byte signature drawn with a fresh nonce, which verifies under the
    /// key it was made for — directly when the public key is the private
    /// key's image, and with the augmenting offset when it is an augmented
    /// image.
    pub fn schnorrSign(
        &self,
        private_key: &Vec<u8>,
        public_key_obj: &JsPublicKey,
        message: &Vec<u8>,
    ) -> (r: Result<Vec<u8>, ApiError>)
        ensures
            private_key@.len() != 32 ==> errs_with(
                r,
                size_mismatch("privateKey"@, 32, private_key@.len()),
            ),
            private_key@.len() == 32 && decode_public_key_spec(public_key_obj@) is Err
                ==> errs_with(r, decode_public_key_spec(public_key_obj@)->Err_0),
            private_key@.len() == 32 && decode_public_key_spec(public_key_obj@) is Ok ==> (r
            is Ok <==> pk_canon(public_key_obj.x@, public_key_obj.y@) is Some),
            r matches Ok(s) ==> s@.len() == 64 && ((public_key_obj.x@, public_key_obj.y@)
                == public_key_of(private_key@) ==> schnorr_verifies(
                public_key_obj.x@,
                public_key_obj.y@,
                None,
                message@,
                s@,
            )),
            r matches Ok(s) ==> (forall|augmenting: Seq<u8>|
                augmenting.len() == 32 && pk_scalar_ok(private_key@) && pk_scalar_ok(augmenting)
                    && Some((public_key_obj.x@, public_key_obj.y@)) == augmented_public_key(
                    public_key_of(private_key@),
                    public_key_of(augmenting),
                ) ==> #[trigger] schnorr_verifies(
                    public_key_obj.x@,
                    public_key_obj.y@,
                    Some(augmenting),
                    message@,
                    s@,
                )),
            r matches Err(e) ==> private_key@.len() == 32 && decode_public_key_spec(
                public_key_obj@,
            ) is Ok ==> is_engine_reported(e@),
    {
        let key = match to_fixed(private_key, 32, "privateKey") {
            Ok(v) => v,
            Err(e) => return Err(e),
        };
        let public_key = match js_object_to_public_key(public_key_obj) {
            Ok(v) => v,
            Err(e) => return Err(e),
        };
        self.engine_schnorr_sign(&key, &public_key, message)
    }

    /// Verify a Schnorr signature, accounting for an augmenting private key
    /// when one is given: the engine's deterministic verdict, an error only
    /// for malformed widths.
    pub fn schnorrVerify(
        &self,
        public_key_obj: &JsPublicKey,
        augmented_private_key: Option<Vec<u8>>,
        message: &Vec<u8>,
        signature: &Vec<u8>,
    ) -> (r: Result<bool, ApiError>)
        ensures
            decode_public_key_spec(public_key_obj@) is Err ==> errs_with(
                r,
                decode_public_key_spec(public_key_obj@)->Err_0,
            ),
            decode_public_key_spec(public_key_obj@) is Ok && (augmented_private_key matches Some(k)
                && k@.len() != 32) ==> errs_with(
                r,
                size_mismatch("augmentedPrivateKey"@, 32, augmented_private_key->0@.len()),
            ),
            decode_public_key_spec(public_key_obj@) is Ok && (augmented_private_key matches Some(k)
                ==> k@.len() == 32) && signature@.len() != 64 ==> errs_with(
                r,
                size_mismatch("signature"@, 64, signature@.len()),
            ),
            decode_public_key_spec(public_key_obj@) is Ok && (augmented_private_key matches Some(
                k,
            ) ==> k@.len() == 32) && signature@.len() == 64 ==> (r is Ok <==> pk_canon(
                public_key_obj.x@,
                public_key_obj.y@,
            ) is Some),
            r matches Err(e) ==> decode_public_key_spec(public_key_obj@) is Ok && (
            augmented_private_key matches Some(k) ==> k@.len() == 32) && signature@.len() == 64
                ==> is_engine_reported(e@),
            r matches Ok(b) ==> b == schnorr_verifies(
                public_key_obj.x@,
                public_key_obj.y@,
                opt_view(augmented_private_key),
                message@,
                signature@,
            ),
    {
        let public_key = match js_object_to_public_key(public_key_obj) {
            Ok(v) => v,
            Err(e) => return Err(e),
        };
        let augmenting = match &augmented_private_key {
            Some(k) => match to_fixed(k, 32, "augmentedPrivateKey") {
                Ok(v) => Some(v),
                Err(e) => return Err(e),
            },
            None => None,
        };
        match check_width(signature, 64, "signature") {
            Ok(_) => {},
            Err(e) => return Err(e),
        }
        self.engine_schnorr_verify(&public_key, &augmenting, message, signature)
    }
}

/// Serialize a transform key into the canonical byte concatenation that its
/// signature covers: 672 bytes in the fixed field order.
pub fn transformKeyToBytes256(transform_key_obj: &JsTransformKey) -> (r: Result<Vec<u8>, ApiError>)
    ensures
        decode_transform_key_spec(transform_key_obj@) is Err ==> errs_with(
            r,
            decode_transform_key_spec(transform_key_obj@)->Err_0,
        ),
        decode_transform_key_spec(transform_key_obj@) is Ok ==> r is Ok,
        r matches Ok(v) ==> v@ == transform_key_bytes_spec(transform_key_obj@) && v@.len() == 672,
{
    let tk = match js_object_to_transform_key(transform_key_obj) {
        Ok(v) => v,
        Err(e) => return Err(e),
    };
    let mut out: Vec<u8> = Vec::new();
    append_bytes(&mut out, &tk.ephemeral_public_key.x);
    append_bytes(&mut out, &tk.ephemeral_public_key.y);
    append_bytes(&mut out, &tk.to_public_key.x);
    append_bytes(&mut out, &tk.to_public_key.y);
    append_bytes(&mut out, &tk.encrypted_temp_key);
    append_bytes(&mut out, &tk.hashed_temp_key);
    append_bytes(&mut out, &tk.public_signing_key);
    Ok(out)
}

/// Augment a transform key with a 32-byte private key: only the hashed temp
/// key changes, every other field of the record is kept.
pub fn augmentTransformKey256(
    transform_key_obj: &JsTransformKey,
    private_key: &Vec<u8>,
) -> (r: Result<JsTransformKey, ApiError>)
    ensures
        decode_transform_key_spec(transform_key_obj@) is Err ==> errs_with(
            r,
            decode_transform_key_spec(transform_key_obj@)->Err_0,
        ),
        decode_transform_key_spec(transform_key_obj@) is Ok && private_key@.len() != 32
            ==> errs_with(r, size_mismatch("privateKey"@, 32, private_key@.len())),
        decode_transform_key_spec(transform_key_obj@) is Ok && private_key@.len() == 32 ==> (r
        is Ok <==> (pk_canon(
            transform_key_obj.ephemeralPublicKey.x@,
            transform_key_obj.ephemeralPublicKey.y@,
        ) is Some && pk_canon(
            transform_key_obj.toPublicKey.x@,
            transform_key_obj.toPublicKey.y@,
        ) is Some && hashed_value_ok(transform_key_obj.hashedTempKey@))),
        r matches Ok(tk) ==> tk_wf(tk@) && Some(
            (tk.ephemeralPublicKey.x@, tk.ephemeralPublicKey.y@),
        ) == pk_canon(
            transform_key_obj.ephemeralPublicKey.x@,
            transform_key_obj.ephemeralPublicKey.y@,
        ) && Some((tk.toPublicKey.x@, tk.toPublicKey.y@)) == pk_canon(
            transform_key_obj.toPublicKey.x@,
            transform_key_obj.toPublicKey.y@,
        ) && tk.encryptedTempKey@ == etk_canon(transform_key_obj.encryptedTempKey@)
            && tk.hashedTempKey@ == augmented_hashed_key(
            transform_key_obj.hashedTempKey@,
            private_key@,
        ) && tk.publicSigningKey@ == transform_key_obj.publicSigningKey@ && tk.signature@
            == transform_key_obj.signature@,
        r matches Err(e) ==> decode_transform_key_spec(transform_key_obj@) is Ok
            && private_key@.len() == 32 ==> is_engine_reported(e@),
{
    let tk = match js_object_to_transform_key(transform_key_obj) {
        Ok(v) => v,
        Err(e) => return Err(e),
    };
    let key = match to_fixed(private_key, 32, "privateKey") {
        Ok(v) => v,
        Err(e) => return Err(e),
    };
    match engine_augment_transform_key(&tk, &key) {
        Ok(augmented) => Ok(transform_key_to_js_object(&augmented)),
        Err(e) => Err(e),
    }
}

/// Augment a public key with another: the sum of the two curve points.
pub fn augmentPublicKey256(
    current_public_key_obj: &JsPublicKey,
    other_public_key_obj: &JsPublicKey,
) -> (r: Result<JsPublicKey, ApiError>)
    ensures
        decode_public_key_spec(current_public_key_obj@) is Err ==> errs_with(
            r,
            decode_public_key_spec(current_public_key_obj@)->Err_0,
        ),
        decode_public_key_spec(current_public_key_obj@) is Ok && decode_public_key_spec(
            other_public_key_obj@,
        ) is Err ==> errs_with(r, decode_public_key_spec(other_public_key_obj@)->Err_0),
        decode_public_key_spec(current_public_key_obj@) is Ok && decode_public_key_spec(
            other_public_key_obj@,
        ) is Ok ==> (r is Ok <==> (pk_canon(current_public_key_obj.x@, current_public_key_obj.y@)
            is Some && pk_canon(other_public_key_obj.x@, other_public_key_obj.y@) is Some
            && augmented_public_key(
            (current_public_key_obj.x@, current_public_key_obj.y@),
            (other_public_key_obj.x@, other_public_key_obj.y@),
        ) is Some)),
        r matches Ok(p) ==> pk_wf(p@) && Some((p.x@, p.y@)) == augmented_public_key(
            (current_public_key_obj.x@, current_public_key_obj.y@),
            (other_public_key_obj.x@, other_public_key_obj.y@),
        ),
        r matches Err(e) ==> decode_public_key_spec(current_public_key_obj@) is Ok
            && decode_public_key_spec(other_public_key_obj@) is Ok ==> is_engine_reported(e@),
{
    let current = match js_object_to_public_key(current_public_key_obj) {
        Ok(v) => v,
        Err(e) => return Err(e),
    };
    let other = match js_object_to_public_key(other_public_key_obj) {
        Ok(v) => v,
        Err(e) => return Err(e),
    };
    match engine_augment_public_key(&current, &other) {
        Ok(p) => Ok(public_key_to_js_object(&p)),
        Err(e) => Err(e),
    }
}

/// Add two 32-byte private keys in the curve's scalar field; total once both
/// widths are right. The result carries the group laws: the sum commutes and
/// associates, subtracting an addend recovers the other operand's canonical
/// form, and for valid scalars the sum's public-key image is the
/// augmentation of the operands' images.
pub fn addPrivateKeys(private_key_a: &Vec<u8>, private_key_b: &Vec<u8>) -> (r: Result<
    Vec<u8>,
    ApiError,
>)
    ensures
        private_key_a@.len() != 32 ==> errs_with(
            r,
            size_mismatch("privateKeyA"@, 32, private_key_a@.len()),
        ),
        private_key_a@.len() == 32 && private_key_b@.len() != 32 ==> errs_with(
            r,
            size_mismatch("privateKeyB"@, 32, private_key_b@.len()),
        ),
        private_key_a@.len() == 32 && private_key_b@.len() == 32 ==> r is Ok,
        r matches Ok(v) ==> v@ == private_key_sum(private_key_a@, private_key_b@) && v@
            == private_key_sum(private_key_b@, private_key_a@) && v@.len() == 32 && v@
            == scalar_canon(v@) && private_key_diff(v@, private_key_b@) == scalar_canon(
            private_key_a@,
        ) && (forall|c: Seq<u8>| #[trigger] private_key_sum(v@, c) == private_key_sum(
            private_key_a@,
            private_key_sum(private_key_b@, c),
        )),
        r matches Ok(v) ==> pk_scalar_ok(private_key_a@) && pk_scalar_ok(private_key_b@)
            && pk_scalar_ok(v@) && scalar_canon(private_key_a@) == private_key_a@ && scalar_canon(
            private_key_b@,
        ) == private_key_b@ ==> augmented_public_key(
            public_key_of(private_key_a@),
            public_key_of(private_key_b@),
        ) == Some(public_key_of(v@)),
{
    let a = match to_fixed(private_key_a, 32, "privateKeyA") {
        Ok(v) => v,
        Err(e) => return Err(e),
    };
    let b = match to_fixed(private_key_b, 32, "privateKeyB") {
        Ok(v) => v,
        Err(e) => return Err(e),
    };
    Ok(engine_add_private_keys(&a, &b))
}

/// Subtract the second 32-byte private key from the first in the curve's
/// scalar field; total once both widths are right, the result canonical.
pub fn subtractPrivateKeys(private_key_a: &Vec<u8>, private_key_b: &Vec<u8>) -> (r: Result<
    Vec<u8>,
    ApiError,
>)
    ensures
        private_key_a@.len() != 32 ==> errs_with(
            r,
            size_mismatch("privateKeyA"@, 32, private_key_a@.len()),
        ),
        private_key_a@.len() == 32 && private_key_b@.len() != 32 ==> errs_with(
            r,
            size_mismatch("privateKeyB"@, 32, private_key_b@.len()),
        ),
        private_key_a@.len() == 32 && private_key_b@.len() == 32 ==> r is Ok,
        r matches Ok(v) ==> v@ == private_key_diff(private_key_a@, private_key_b@) && v@.len()
            == 32 && v@ == scalar_canon(v@),
{
    let a = match to_fixed(private_key_a, 32, "privateKeyA") {
        Ok(v) => v,
        Err(e) => return Err(e),
    };
    let b = match to_fixed(private_key_b, 32, "privateKeyB") {
        Ok(v) => v,
        Err(e) => return Err(e),
    };
    Ok(engine_subtract_private_keys(&a, &b))
}

} // verus!
