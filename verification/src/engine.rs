//! Trusted boundary to the proxy re-encryption engine.
//!
//! Everything the engine computes is reached through the wrappers below, each
//! wrapping one engine operation, from plain byte values to plain byte
//! values. Results that are deterministic functions of the arguments alone
//! are named by uninterpreted spec functions; of randomized results only
//! structure (widths, variant, chain length) is stated.

use crate::errors::is_engine_reported;
use crate::errors::ApiError;
use crate::models::ev_hops;
use crate::models::EncryptedValueModel;
use crate::values::EncryptedValue256;
use crate::values::PublicKey256;
use crate::values::TransformBlock256;
use crate::values::TransformChain;
use crate::values::TransformKey256;
use recrypt::api::Sha256Hashing;
use recrypt::prelude::CryptoOps;
use recrypt::prelude::Ed25519Ops;
use recrypt::prelude::KeyGenOps;
use recrypt::prelude::SchnorrOps;
use vstd::prelude::*;

verus! {

/// The SHA-256 digest of a byte string, as recrypt's Sha256 hashing computes
/// it: 32 bytes, a function of the input alone.
pub uninterp spec fn sha256_of(bytes: Seq<u8>) -> Seq<u8>;

/// The canonical re-encoding that recrypt's Plaintext::new applies to a
/// 384-byte buffer (each 32-byte limb reduced modulo the field prime).
pub uninterp spec fn plaintext_canon(bytes: Seq<u8>) -> Seq<u8>;

/// The public key that recrypt's compute_public_key derives from a 32-byte
/// private key when it succeeds: the pair of 32-byte coordinates.
pub uninterp spec fn public_key_of(private_key: Seq<u8>) -> (Seq<u8>, Seq<u8>);

/// Whether recrypt's compute_public_key accepts a 32-byte private key: it
/// rejects exactly the scalars whose reduction is zero.
pub uninterp spec fn pk_scalar_ok(private_key: Seq<u8>) -> bool;

/// The outcome of recrypt's PublicKey::new on a pair of 32-byte
/// coordinates: nothing when the point is off the curve, else the stored
/// coordinates. The engine reduces each coordinate modulo the field prime
/// and keeps the reduced encoding, so a non-canonical accepted input comes
/// back as its canonical form, not byte-identical.
pub uninterp spec fn pk_canon(x: Seq<u8>, y: Seq<u8>) -> Option<(Seq<u8>, Seq<u8>)>;

/// The canonical re-encoding recrypt's EncryptedTempKey::new applies to its
/// 384 bytes (each 32-byte limb reduced modulo the field prime).
pub uninterp spec fn etk_canon(bytes: Seq<u8>) -> Seq<u8>;

/// Whether recrypt's HashedValue::new accepts 128 bytes as a point of the
/// twisted curve.
pub uninterp spec fn hashed_value_ok(bytes: Seq<u8>) -> bool;

/// The outcome of carrying a validated encrypted value into recrypt's
/// decrypt with a 32-byte private key: a deterministic function of the two,
/// nothing when the engine rejects one of the value's points, the key is
/// not the chain's final recipient, or a signature or the authentication
/// hash fails, else the 384 plaintext bytes.
pub uninterp spec fn decrypt_result(
    encrypted_value: crate::models::EncryptedValueModel,
    private_key: Seq<u8>,
) -> Option<Seq<u8>>;

/// Whether recrypt's SigningKeypair::from_bytes accepts a 64-byte buffer:
/// its second half must be the public key derived from its first half.
pub uninterp spec fn signing_keypair_valid(bytes: Seq<u8>) -> bool;

/// The deterministic ed25519 signature recrypt's SigningKeypair::sign
/// produces over a message.
pub uninterp spec fn ed25519_signature_of(signing_key_pair: Seq<u8>, message: Seq<u8>) -> Seq<u8>;

/// The verdict of recrypt's PublicSigningKey::verify on a 32-byte public
/// key, a message and a 64-byte signature.
pub uninterp spec fn ed25519_verifies(public: Seq<u8>, message: Seq<u8>, signature: Seq<u8>) -> bool;

/// The verdict of recrypt's schnorr_verify on a public key, an optional
/// 32-byte augmenting private key, a message and a 64-byte signature.
pub uninterp spec fn schnorr_verifies(
    key_x: Seq<u8>,
    key_y: Seq<u8>,
    augmenting_private_key: Option<Seq<u8>>,
    message: Seq<u8>,
    signature: Seq<u8>,
) -> bool;

/// The normalization recrypt's scalar arithmetic applies to each 32-byte
/// operand (PrivateKey::augment reads it through Fr256 and writes it back):
/// reduction modulo the order of the curve's scalar group, re-encoded as 32
/// big-endian bytes. A value below the order is its own normalization.
pub uninterp spec fn scalar_canon(bytes: Seq<u8>) -> Seq<u8>;

/// The 32-byte sum recrypt's PrivateKey::augment_plus computes in the scalar
/// field of the curve.
pub uninterp spec fn private_key_sum(a: Seq<u8>, b: Seq<u8>) -> Seq<u8>;

/// The 32-byte difference recrypt's PrivateKey::augment_minus computes in
/// the scalar field of the curve.
pub uninterp spec fn private_key_diff(a: Seq<u8>, b: Seq<u8>) -> Seq<u8>;

/// The outcome of recrypt's PublicKey::augment on two accepted points: the
/// coordinates of their sum, or nothing when the sum is the zero point.
pub uninterp spec fn augmented_public_key(
    current: (Seq<u8>, Seq<u8>),
    other: (Seq<u8>, Seq<u8>),
) -> Option<(Seq<u8>, Seq<u8>)>;

/// The byte string an encrypted value's signature covers, in the engine's
/// signing order: the public signing key, then the ephemeral key's
/// coordinates, the encrypted message and the authentication hash.
pub open spec fn once_signed_bytes(
    public_signing_key: Seq<u8>,
    x: Seq<u8>,
    y: Seq<u8>,
    encrypted_message: Seq<u8>,
    auth_hash: Seq<u8>,
) -> Seq<u8> {
    public_signing_key + x + y + encrypted_message + auth_hash
}

/// The 128-byte hashed-key value recrypt's TransformKey::augment puts in
/// place of the old one when it succeeds.
pub uninterp spec fn augmented_hashed_key(hashed_temp_key: Seq<u8>, private_key: Seq<u8>) -> Seq<
    u8,
>;

/// Folds the engine's error taxonomy into the boundary's: invalid points and
/// scalars, failed signatures, and everything else with the engine's message
/// kept verbatim. Relies on recrypt's RecryptErr variants.
#[verifier::external_body]
fn map_engine_error(e: recrypt::api::RecryptErr) -> ApiError {
    match &e {
        recrypt::api::RecryptErr::InvalidPublicKey(_) => ApiError::InvalidKey {
            message: format!("{}", e),
        },
        recrypt::api::RecryptErr::InvalidEncryptedMessageSignature(_) => {
            ApiError::SignatureInvalid { message: format!("{}", e) }
        },
        recrypt::api::RecryptErr::InvalidTransformKey(_) => ApiError::SignatureInvalid {
            message: format!("{}", e),
        },
        _ => ApiError::EngineError { message: format!("{}", e) },
    }
}

/// Converts a validated public key into the engine's; relies on recrypt's
/// PublicKey::new_from_slice, which rejects coordinates off the curve.
#[verifier::external_body]
fn pk_to_engine(k: &PublicKey256) -> Result<recrypt::api::PublicKey, ApiError> {
    recrypt::api::PublicKey::new_from_slice((&k.x[..], &k.y[..])).map_err(map_engine_error)
}

/// Reads the engine's public key back out as coordinate bytes; relies on
/// recrypt's PublicKey::bytes_x_y.
#[verifier::external_body]
fn pk_from_engine(k: &recrypt::api::PublicKey) -> PublicKey256 {
    let (x, y) = k.bytes_x_y();
    PublicKey256 { x: x.to_vec(), y: y.to_vec() }
}

/// Converts 64 signing-key bytes into the engine's keypair; relies on
/// recrypt's SigningKeypair::from_byte_slice, which rejects a pair whose
/// public half does not match its secret half.
#[verifier::external_body]
fn signing_keypair_to_engine(bytes: &Vec<u8>) -> Result<recrypt::api::SigningKeypair, ApiError> {
    recrypt::api::SigningKeypair::from_byte_slice(&bytes[..]).map_err(
        |e| ApiError::InvalidKey { message: format!("{}", e) },
    )
}

/// Converts 384 bytes into the engine's encrypted message; relies on
/// recrypt's EncryptedMessage::new_from_slice.
#[verifier::external_body]
fn msg_to_engine(bytes: &Vec<u8>) -> Result<recrypt::api::EncryptedMessage, ApiError> {
    recrypt::api::EncryptedMessage::new_from_slice(&bytes[..]).map_err(map_engine_error)
}

/// Converts 32 bytes into the engine's authentication hash; relies on
/// recrypt's AuthHash::new_from_slice.
#[verifier::external_body]
fn auth_hash_to_engine(bytes: &Vec<u8>) -> Result<recrypt::api::AuthHash, ApiError> {
    recrypt::api::AuthHash::new_from_slice(&bytes[..]).map_err(map_engine_error)
}

/// Converts 32 bytes into the engine's public signing key; relies on
/// recrypt's PublicSigningKey::new_from_slice.
#[verifier::external_body]
fn psk_to_engine(bytes: &Vec<u8>) -> Result<recrypt::api::PublicSigningKey, ApiError> {
    recrypt::api::PublicSigningKey::new_from_slice(&bytes[..]).map_err(map_engine_error)
}

/// Converts 64 bytes into the engine's ed25519 signature; relies on
/// recrypt's Ed25519Signature::new_from_slice.
#[verifier::external_body]
fn sig_to_engine(bytes: &Vec<u8>) -> Result<recrypt::api::Ed25519Signature, ApiError> {
    recrypt::api::Ed25519Signature::new_from_slice(&bytes[..]).map_err(map_engine_error)
}

/// Converts 384 bytes into the engine's encrypted temp key; relies on
/// recrypt's EncryptedTempKey::new_from_slice.
#[verifier::external_body]
fn etk_to_engine(bytes: &Vec<u8>) -> Result<recrypt::api::EncryptedTempKey, ApiError> {
    recrypt::api::EncryptedTempKey::new_from_slice(&bytes[..]).map_err(map_engine_error)
}

/// Converts 128 bytes into the engine's hashed value; relies on recrypt's
/// HashedValue::new_from_slice, which rejects bytes that are no curve point.
#[verifier::external_body]
fn hashed_value_to_engine(bytes: &Vec<u8>) -> Result<recrypt::api::HashedValue, ApiError> {
    recrypt::api::HashedValue::new_from_slice(&bytes[..]).map_err(map_engine_error)
}

/// Converts a validated transform key into the engine's; relies on recrypt's
/// TransformKey::new.
#[verifier::external_body]
fn tk_to_engine(tk: &TransformKey256) -> Result<recrypt::api::TransformKey, ApiError> {
    Ok(
        recrypt::api::TransformKey::new(
            pk_to_engine(&tk.ephemeral_public_key)?,
            pk_to_engine(&tk.to_public_key)?,
            etk_to_engine(&tk.encrypted_temp_key)?,
            hashed_value_to_engine(&tk.hashed_temp_key)?,
            psk_to_engine(&tk.public_signing_key)?,
            sig_to_engine(&tk.signature)?,
        ),
    )
}

/// Reads the engine's transform key back out as bytes; relies on recrypt's
/// TransformKey256 accessors.
#[verifier::external_body]
fn tk_from_engine(tk: &recrypt::api::TransformKey) -> TransformKey256 {
    TransformKey256 {
        encrypted_temp_key: tk.encrypted_temp_key().bytes().to_vec(),
        ephemeral_public_key: pk_from_engine(tk.ephemeral_public_key()),
        hashed_temp_key: tk.hashed_temp_key().bytes().to_vec(),
        public_signing_key: tk.public_signing_key().bytes().to_vec(),
        signature: tk.signature().bytes().to_vec(),
        to_public_key: pk_from_engine(tk.to_public_key()),
    }
}

/// Converts a validated transform block into the engine's; relies on
/// recrypt's TransformBlock::new.
#[verifier::external_body]
fn block_to_engine(b: &TransformBlock256) -> Result<recrypt::api::TransformBlock, ApiError> {
    recrypt::api::TransformBlock::new(
        &pk_to_engine(&b.public_key)?,
        &etk_to_engine(&b.encrypted_temp_key)?,
        &pk_to_engine(&b.random_transform_public_key)?,
        &etk_to_engine(&b.random_transform_encrypted_temp_key)?,
    ).map_err(map_engine_error)
}

/// Reads one of the engine's transform blocks back out as bytes; relies on
/// recrypt's TransformBlock accessors.
#[verifier::external_body]
fn block_from_engine(b: &recrypt::api::TransformBlock) -> TransformBlock256 {
    TransformBlock256 {
        public_key: pk_from_engine(b.public_key()),
        encrypted_temp_key: b.encrypted_temp_key().bytes().to_vec(),
        random_transform_public_key: pk_from_engine(b.random_transform_public_key()),
        random_transform_encrypted_temp_key: b.encrypted_random_transform_temp_key()
            .bytes()
            .to_vec(),
    }
}

/// Converts a validated transform chain into the engine's non-empty block
/// vector; relies on recrypt's NonEmptyVec::new.
#[verifier::external_body]
fn chain_to_engine(chain: &TransformChain) -> Result<
    recrypt::nonemptyvec::NonEmptyVec<recrypt::api::TransformBlock>,
    ApiError,
> {
    let first = block_to_engine(&chain.first)?;
    let mut rest = Vec::with_capacity(chain.rest.len());
    for b in chain.rest.iter() {
        rest.push(block_to_engine(b)?);
    }
    Ok(recrypt::nonemptyvec::NonEmptyVec::new(first, rest))
}

/// Reads the engine's non-empty block vector back out as a chain; relies on
/// recrypt's NonEmptyVec accessors.
#[verifier::external_body]
fn chain_from_engine(
    blocks: &recrypt::nonemptyvec::NonEmptyVec<recrypt::api::TransformBlock>,
) -> TransformChain {
    TransformChain {
        first: block_from_engine(blocks.first()),
        rest: blocks.rest().iter().map(block_from_engine).collect(),
    }
}

/// Builds the engine's once-encrypted value from converted fields; relies on
/// recrypt's EncryptedValue::EncryptedOnceValue shape.
#[verifier::external_body]
fn once_to_engine(ephemeral_public_key: &PublicKey256, encrypted_message: &Vec<u8>, auth_hash: &Vec<u8>, public_signing_key: &Vec<u8>, signature: &Vec<u8>) -> Result<recrypt::api::EncryptedValue, ApiError> {
    Ok(recrypt::api::EncryptedValue::EncryptedOnceValue {
        ephemeral_public_key: pk_to_engine(ephemeral_public_key)?,
        encrypted_message: msg_to_engine(encrypted_message)?,
        auth_hash: auth_hash_to_engine(auth_hash)?,
        public_signing_key: psk_to_engine(public_signing_key)?,
        signature: sig_to_engine(signature)?,
    })
}

/// Builds the engine's transformed value from converted fields; relies on
/// recrypt's EncryptedValue::TransformedValue shape.
#[verifier::external_body]
fn transformed_to_engine(ephemeral_public_key: &PublicKey256, encrypted_message: &Vec<u8>, auth_hash: &Vec<u8>, public_signing_key: &Vec<u8>, signature: &Vec<u8>, transform_blocks: &TransformChain) -> Result<recrypt::api::EncryptedValue, ApiError> {
    Ok(recrypt::api::EncryptedValue::TransformedValue {
        ephemeral_public_key: pk_to_engine(ephemeral_public_key)?,
        encrypted_message: msg_to_engine(encrypted_message)?,
        auth_hash: auth_hash_to_engine(auth_hash)?,
        public_signing_key: psk_to_engine(public_signing_key)?,
        signature: sig_to_engine(signature)?,
        transform_blocks: chain_to_engine(transform_blocks)?,
    })
}

/// Converts a validated encrypted value into the engine's; relies on
/// recrypt's EncryptedValue variants.
#[verifier::external_body]
fn ev_to_engine(ev: &EncryptedValue256) -> Result<recrypt::api::EncryptedValue, ApiError> {
    match ev {
        EncryptedValue256::EncryptedOnceValue { ephemeral_public_key, encrypted_message, auth_hash, public_signing_key, signature } => once_to_engine(ephemeral_public_key, encrypted_message, auth_hash, public_signing_key, signature),
        EncryptedValue256::TransformedValue { ephemeral_public_key, encrypted_message, auth_hash, public_signing_key, signature, transform_blocks } => transformed_to_engine(ephemeral_public_key, encrypted_message, auth_hash, public_signing_key, signature, transform_blocks),
    }
}

/// Reads the engine's once-encrypted value's fields back out as bytes;
/// relies on recrypt's byte accessors.
#[verifier::external_body]
fn once_from_engine(ephemeral_public_key: &recrypt::api::PublicKey, encrypted_message: &recrypt::api::EncryptedMessage, auth_hash: &recrypt::api::AuthHash, public_signing_key: &recrypt::api::PublicSigningKey, signature: &recrypt::api::Ed25519Signature) -> EncryptedValue256 {
    EncryptedValue256::EncryptedOnceValue {
        ephemeral_public_key: pk_from_engine(ephemeral_public_key),
        encrypted_message: encrypted_message.bytes().to_vec(),
        auth_hash: auth_hash.bytes().to_vec(),
        public_signing_key: public_signing_key.bytes().to_vec(),
        signature: signature.bytes().to_vec(),
    }
}

/// Reads the engine's transformed value's fields back out as bytes; relies
/// on recrypt's byte accessors.
#[verifier::external_body]
fn transformed_from_engine(ephemeral_public_key: &recrypt::api::PublicKey, encrypted_message: &recrypt::api::EncryptedMessage, auth_hash: &recrypt::api::AuthHash, public_signing_key: &recrypt::api::PublicSigningKey, signature: &recrypt::api::Ed25519Signature, transform_blocks: &recrypt::nonemptyvec::NonEmptyVec<recrypt::api::TransformBlock>) -> EncryptedValue256 {
    EncryptedValue256::TransformedValue {
        ephemeral_public_key: pk_from_engine(ephemeral_public_key),
        encrypted_message: encrypted_message.bytes().to_vec(),
        auth_hash: auth_hash.bytes().to_vec(),
        public_signing_key: public_signing_key.bytes().to_vec(),
        signature: signature.bytes().to_vec(),
        transform_blocks: chain_from_engine(transform_blocks),
    }
}

/// Reads the engine's encrypted value back out as bytes; relies on recrypt's
/// EncryptedValue variants.
#[verifier::external_body]
fn ev_from_engine(ev: &recrypt::api::EncryptedValue) -> EncryptedValue256 {
    match ev {
        recrypt::api::EncryptedValue::EncryptedOnceValue { ephemeral_public_key, encrypted_message, auth_hash, public_signing_key, signature } => once_from_engine(ephemeral_public_key, encrypted_message, auth_hash, public_signing_key, signature),
        recrypt::api::EncryptedValue::TransformedValue { ephemeral_public_key, encrypted_message, auth_hash, public_signing_key, signature, transform_blocks } => transformed_from_engine(ephemeral_public_key, encrypted_message, auth_hash, public_signing_key, signature, transform_blocks),
    }
}

/// The handle to the proxy re-encryption engine. Its one field is the engine
/// itself, whose reseeding CSPRNG's type cannot be declared to the verifier
/// (the type's bounds name outside traits), so the whole struct is held
/// opaque. Construction seeds that CSPRNG from the operating system.
#[verifier::external_body]
pub struct Api256 {
    api: recrypt::api::Recrypt<
        recrypt::api::Sha256,
        recrypt::api::Ed25519,
        recrypt::api::RandomBytes<recrypt::api::DefaultRng>,
    >,
}

impl Api256 {
    /// Relies on recrypt's Recrypt::new, which builds the engine around a
    /// reseeding ChaCha CSPRNG drawing from the operating system.
    #[verifier::external_body]
    pub fn new() -> Api256 {
        Api256 { api: recrypt::api::Recrypt::new() }
    }

    /// Relies on recrypt's generate_key_pair: a fresh random 32-byte private
    /// key together with the public key that compute_public_key derives from
    /// it (the source computes the pair exactly so, so the private key is
    /// one that compute_public_key accepts).
    #[verifier::external_body]
    pub(crate) fn engine_generate_key_pair(&self) -> (r: Result<(Vec<u8>, PublicKey256), ApiError>)
        ensures
            r matches Ok(k) ==> k.0@.len() == 32 && k.1.wf() && pk_scalar_ok(k.0@) && (
            k.1.x@,
            k.1.y@,
            ) == public_key_of(k.0@),
            r matches Err(e) ==> is_engine_reported(e@),
    {
        match self.api.generate_key_pair() {
            Ok((private_key, public_key)) => Ok(
                (private_key.bytes().to_vec(), pk_from_engine(&public_key)),
            ),
            Err(e) => Err(map_engine_error(e)),
        }
    }

    /// Relies on recrypt's generate_ed25519_key_pair: 64 bytes whose second
    /// half is the public key derived from the first, so from_bytes accepts
    /// them again.
    #[verifier::external_body]
    pub(crate) fn engine_generate_ed25519_key_pair(&self) -> (r: Vec<u8>)
        ensures
            r@.len() == 64,
            signing_keypair_valid(r@),
    {
        self.api.generate_ed25519_key_pair().bytes().to_vec()
    }

    /// Relies on recrypt's gen_plaintext: a random 384-byte plaintext,
    /// emitted in the canonical encoding, so re-encoding it changes nothing.
    #[verifier::external_body]
    pub(crate) fn engine_generate_plaintext(&self) -> (r: Vec<u8>)
        ensures
            r@.len() == 384,
            plaintext_canon(r@) == r@,
    {
        self.api.gen_plaintext().bytes().to_vec()
    }

    /// Relies on recrypt's compute_public_key: the deterministic public-key
    /// image of a 32-byte private key, accepted exactly when the scalar is,
    /// or the engine's rejection.
    #[verifier::external_body]
    pub(crate) fn engine_compute_public_key(&self, private_key: &Vec<u8>) -> (r: Result<
        PublicKey256,
        ApiError,
    >)
        requires
            private_key@.len() == 32,
        ensures
            r is Ok <==> pk_scalar_ok(private_key@),
            r matches Ok(p) ==> p.wf() && (p.x@, p.y@) == public_key_of(private_key@),
            r matches Err(e) ==> is_engine_reported(e@),
    {
        match recrypt::api::PrivateKey::new_from_slice(&private_key[..]) {
            Ok(pk) => match self.api.compute_public_key(&pk) {
                Ok(public_key) => Ok(pk_from_engine(&public_key)),
                Err(e) => Err(map_engine_error(e)),
            },
            Err(e) => Err(map_engine_error(e)),
        }
    }

    /// Relies on recrypt's derive_symmetric_key: the SHA-256 digest of the
    /// canonical re-encoding of the 384-byte plaintext.
    #[verifier::external_body]
    pub(crate) fn engine_derive_symmetric_key(&self, plaintext: &Vec<u8>) -> (r: Vec<u8>)
        requires
            plaintext@.len() == 384,
        ensures
            r@ == sha256_of(plaintext_canon(plaintext@)),
            r@.len() == 32,
    {
        let pt = recrypt::api::Plaintext::new_from_slice(&plaintext[..]).expect(
            "the width was checked",
        );
        self.api.derive_symmetric_key(&pt).bytes().to_vec()
    }

    /// Relies on recrypt's generate_transform_key: a delegation credential
    /// from the private key's holder to the public key's holder, signed with
    /// the signing keypair whose public half it embeds. The delegatee key it
    /// carries is the engine's canonical re-encoding of the given one.
    #[verifier::external_body]
    pub(crate) fn engine_generate_transform_key(
        &self,
        from_private_key: &Vec<u8>,
        to_public_key: &PublicKey256,
        signing_key_pair: &Vec<u8>,
    ) -> (r: Result<TransformKey256, ApiError>)
        requires
            from_private_key@.len() == 32,
            to_public_key.wf(),
            signing_key_pair@.len() == 64,
        ensures
            r matches Ok(tk) ==> tk.wf() && Some((tk.to_public_key.x@, tk.to_public_key.y@))
                == pk_canon(to_public_key.x@, to_public_key.y@) && tk.public_signing_key@
                == signing_key_pair@.subrange(32, 64),
            r matches Err(e) ==> is_engine_reported(e@),
    {
        let from_pk = recrypt::api::PrivateKey::new_from_slice(&from_private_key[..]).map_err(map_engine_error)?;
        let to_pk = pk_to_engine(to_public_key)?;
        let kp = signing_keypair_to_engine(signing_key_pair)?;
        match self.api.generate_transform_key(&from_pk, &to_pk, &kp) {
            Ok(tk) => Ok(tk_from_engine(&tk)),
            Err(e) => Err(map_engine_error(e)),
        }
    }

    /// Relies on recrypt's encrypt: a once-encrypted value bound to the
    /// public key, embedding the signing keypair's public half, and signed
    /// over the public signing key, the ephemeral key's coordinates, the
    /// encrypted message and the authentication hash, in that order, so the
    /// signature verifies under the embedded key and covers every field.
    /// Decrypting the result with any private key whose image is the target
    /// key recovers the canonical re-encoding of the plaintext.
    #[verifier::external_body]
    pub(crate) fn engine_encrypt(
        &self,
        plaintext: &Vec<u8>,
        to_public_key: &PublicKey256,
        signing_key_pair: &Vec<u8>,
    ) -> (r: Result<EncryptedValue256, ApiError>)
        requires
            plaintext@.len() == 384,
            to_public_key.wf(),
            signing_key_pair@.len() == 64,
        ensures
            r matches Ok(ev) ==> ev.wf() && (ev@ matches EncryptedValueModel::Once {
                ephemeral_public_key,
                encrypted_message,
                auth_hash,
                public_signing_key,
                signature,
            } && public_signing_key == signing_key_pair@.subrange(32, 64) && ed25519_verifies(
                public_signing_key,
                once_signed_bytes(
                    public_signing_key,
                    ephemeral_public_key.x,
                    ephemeral_public_key.y,
                    encrypted_message,
                    auth_hash,
                ),
                signature,
            )),
            r matches Ok(ev) ==> (forall|private_key: Seq<u8>|
                private_key.len() == 32 && pk_scalar_ok(private_key) && public_key_of(private_key)
                    == (to_public_key.x@, to_public_key.y@) ==> #[trigger] decrypt_result(
                    ev@,
                    private_key,
                ) == Some(plaintext_canon(plaintext@))),
            r matches Err(e) ==> is_engine_reported(e@),
    {
        let pt = recrypt::api::Plaintext::new_from_slice(&plaintext[..]).map_err(map_engine_error)?;
        let to_pk = pk_to_engine(to_public_key)?;
        let kp = signing_keypair_to_engine(signing_key_pair)?;
        match self.api.encrypt(&pt, &to_pk, &kp) {
            Ok(ev) => Ok(ev_from_engine(&ev)),
            Err(e) => Err(map_engine_error(e)),
        }
    }

    /// Relies on recrypt's transform: the result is a transformed value
    /// whose chain holds one block more than the input's (the source keeps
    /// the earlier hops and appends one for this hop), re-signed with the
    /// given keypair, whose public half it embeds.
    #[verifier::external_body]
    pub(crate) fn engine_transform(
        &self,
        encrypted_value: &EncryptedValue256,
        transform_key: &TransformKey256,
        signing_key_pair: &Vec<u8>,
    ) -> (r: Result<EncryptedValue256, ApiError>)
        requires
            encrypted_value.wf(),
            transform_key.wf(),
            signing_key_pair@.len() == 64,
        ensures
            r matches Ok(out) ==> out.wf() && (out@ matches EncryptedValueModel::Transformed {
                transform_blocks,
                public_signing_key,
                ..
            } && transform_blocks.len() == ev_hops(encrypted_value@) + 1 && public_signing_key
                == signing_key_pair@.subrange(32, 64)),
            r matches Err(e) ==> is_engine_reported(e@),
    {
        let ev = ev_to_engine(encrypted_value)?;
        let tk = tk_to_engine(transform_key)?;
        let kp = signing_keypair_to_engine(signing_key_pair)?;
        match self.api.transform(ev, tk, &kp) {
            Ok(out) => Ok(ev_from_engine(&out)),
            Err(e) => Err(map_engine_error(e)),
        }
    }

    /// Relies on recrypt's decrypt, a deterministic function of the value
    /// and the key: the 384-byte plaintext exactly when the key is the
    /// chain's final recipient and every check passes, else the engine's
    /// rejection of the key, a signature or the authentication hash.
    #[verifier::external_body]
    pub(crate) fn engine_decrypt(
        &self,
        encrypted_value: &EncryptedValue256,
        private_key: &Vec<u8>,
    ) -> (r: Result<Vec<u8>, ApiError>)
        requires
            encrypted_value.wf(),
            private_key@.len() == 32,
        ensures
            r is Ok <==> decrypt_result(encrypted_value@, private_key@) is Some,
            r matches Ok(p) ==> Some(p@) == decrypt_result(encrypted_value@, private_key@)
                && p@.len() == 384,
            r matches Err(e) ==> is_engine_reported(e@),
    {
        let ev = ev_to_engine(encrypted_value)?;
        let pk = recrypt::api::PrivateKey::new_from_slice(&private_key[..]).map_err(map_engine_error)?;
        match self.api.decrypt(ev, &pk) {
            Ok(pt) => Ok(pt.bytes().to_vec()),
            Err(e) => Err(map_engine_error(e)),
        }
    }

    /// Relies on recrypt's schnorr_sign: accepted exactly when the public
    /// key decodes to a curve point, and then a 64-byte signature drawn with
    /// a fresh random nonce. Of every outcome it holds that when the public
    /// key is the one computed from the private key, schnorr_verify accepts
    /// the signature without an augmenting key; and when the public key is
    /// the augmentation of the signer's image by another scalar's image,
    /// schnorr_verify accepts it with that scalar as the offset (the
    /// verifier subtracts the offset's image before the check).
    #[verifier::external_body]
    pub(crate) fn engine_schnorr_sign(
        &self,
        private_key: &Vec<u8>,
        public_key: &PublicKey256,
        message: &Vec<u8>,
    ) -> (r: Result<Vec<u8>, ApiError>)
        requires
            private_key@.len() == 32,
            public_key.wf(),
        ensures
            r is Ok <==> pk_canon(public_key.x@, public_key.y@) is Some,
            r matches Ok(s) ==> s@.len() == 64 && ((public_key.x@, public_key.y@)
                == public_key_of(private_key@) ==> schnorr_verifies(
                public_key.x@,
                public_key.y@,
                None,
                message@,
                s@,
            )),
            r matches Ok(s) ==> (forall|augmenting: Seq<u8>|
                augmenting.len() == 32 && pk_scalar_ok(private_key@) && pk_scalar_ok(augmenting)
                    && Some((public_key.x@, public_key.y@)) == augmented_public_key(
                    public_key_of(private_key@),
                    public_key_of(augmenting),
                ) ==> #[trigger] schnorr_verifies(
                    public_key.x@,
                    public_key.y@,
                    Some(augmenting),
                    message@,
                    s@,
                )),
            r matches Err(e) ==> is_engine_reported(e@),
    {
        let pk = pk_to_engine(public_key)?;
        let priv_key = recrypt::api::PrivateKey::new_from_slice(&private_key[..]).map_err(map_engine_error)?;
        Ok(self.api.schnorr_sign(&priv_key, &pk, message).bytes().to_vec())
    }

    /// Relies on recrypt's schnorr_verify: accepted exactly when the public
    /// key decodes to a curve point, and then a deterministic verdict over
    /// the public key, the optional augmenting private key, the message and
    /// the signature.
    #[verifier::external_body]
    pub(crate) fn engine_schnorr_verify(
        &self,
        public_key: &PublicKey256,
        augmented_private_key: &Option<Vec<u8>>,
        message: &Vec<u8>,
        signature: &Vec<u8>,
    ) -> (r: Result<bool, ApiError>)
        requires
            public_key.wf(),
            augmented_private_key matches Some(k) ==> k@.len() == 32,
            signature@.len() == 64,
        ensures
            r is Ok <==> pk_canon(public_key.x@, public_key.y@) is Some,
            r matches Ok(b) ==> b == schnorr_verifies(
                public_key.x@,
                public_key.y@,
                crate::models::opt_view(*augmented_private_key),
                message@,
                signature@,
            ),
            r matches Err(e) ==> is_engine_reported(e@),
    {
        let pk = pk_to_engine(public_key)?;
        let aug = match augmented_private_key {
            Some(k) => Some(
                recrypt::api::PrivateKey::new_from_slice(&k[..]).map_err(map_engine_error)?,
            ),
            None => None,
        };
        let sig = recrypt::api::SchnorrSignature::new_from_slice(&signature[..]).map_err(map_engine_error)?;
        Ok(self.api.schnorr_verify(&pk, aug.as_ref(), message, sig))
    }
}

/// Relies on recrypt's SigningKeypair::from_bytes and sign: accepted exactly
/// when the 64 bytes form a consistent pair, and then the deterministic
/// ed25519 signature over the message, which verifies under the pair's
/// public half.
#[verifier::external_body]
pub(crate) fn engine_ed25519_sign(signing_key_pair: &Vec<u8>, message: &Vec<u8>) -> (r: Result<
    Vec<u8>,
    ApiError,
>)
    requires
        signing_key_pair@.len() == 64,
    ensures
        r is Ok <==> signing_keypair_valid(signing_key_pair@),
        r matches Ok(s) ==> s@ == ed25519_signature_of(signing_key_pair@, message@) && s@.len()
            == 64 && ed25519_verifies(signing_key_pair@.subrange(32, 64), message@, s@),
        r matches Err(e) ==> e@ is InvalidKey,
{
    let kp = signing_keypair_to_engine(signing_key_pair)?;
    Ok(kp.sign(message).bytes().to_vec())
}

/// Relies on recrypt's PublicSigningKey::verify: a deterministic verdict,
/// false rather than an error on any invalid input.
#[verifier::external_body]
pub(crate) fn engine_ed25519_verify(
    public: &Vec<u8>,
    message: &Vec<u8>,
    signature: &Vec<u8>,
) -> (r: bool)
    requires
        public@.len() == 32,
        signature@.len() == 64,
    ensures
        r == ed25519_verifies(public@, message@, signature@),
{
    let mut public_bytes = [0u8; 32];
    public_bytes.copy_from_slice(&public[..]);
    let mut signature_bytes = [0u8; 64];
    signature_bytes.copy_from_slice(&signature[..]);
    let public_signing_key = recrypt::api::PublicSigningKey::new(public_bytes);
    public_signing_key.verify(message, &recrypt::api::Ed25519Signature::new(signature_bytes))
}

/// Relies on recrypt's SigningKeypair::from_bytes and public_key: accepted
/// exactly when the pair is consistent, and then the public half is the
/// second 32 bytes of the input.
#[verifier::external_body]
pub(crate) fn engine_compute_ed25519_public_key(signing_key_pair: &Vec<u8>) -> (r: Result<
    Vec<u8>,
    ApiError,
>)
    requires
        signing_key_pair@.len() == 64,
    ensures
        r is Ok <==> signing_keypair_valid(signing_key_pair@),
        r matches Ok(p) ==> p@ == signing_key_pair@.subrange(32, 64),
        r matches Err(e) ==> e@ is InvalidKey,
{
    let kp = signing_keypair_to_engine(signing_key_pair)?;
    Ok(kp.public_key().bytes().to_vec())
}

/// Relies on recrypt's Sha256 hashing of a byte vector: 32 digest bytes.
#[verifier::external_body]
pub(crate) fn engine_hash256(bytes: &Vec<u8>) -> (r: Vec<u8>)
    ensures
        r@ == sha256_of(bytes@),
        r@.len() == 32,
{
    recrypt::api::Sha256.hash(bytes).to_vec()
}

/// Relies on recrypt's TransformKey::augment: accepted exactly when the two
/// public keys and the hashed temp key decode in the engine; then only the
/// hashed temp key changes, to the deterministic augmented value, while the
/// public keys and the encrypted temp key come back in the engine's
/// canonical re-encoding and the signing key and signature are kept.
#[verifier::external_body]
pub(crate) fn engine_augment_transform_key(
    transform_key: &TransformKey256,
    private_key: &Vec<u8>,
) -> (r: Result<TransformKey256, ApiError>)
    requires
        transform_key.wf(),
        private_key@.len() == 32,
    ensures
        r is Ok <==> (pk_canon(
            transform_key.ephemeral_public_key.x@,
            transform_key.ephemeral_public_key.y@,
        ) is Some && pk_canon(transform_key.to_public_key.x@, transform_key.to_public_key.y@)
            is Some && hashed_value_ok(transform_key.hashed_temp_key@)),
        r matches Ok(tk) ==> tk.wf() && Some(
            (tk.ephemeral_public_key.x@, tk.ephemeral_public_key.y@),
        ) == pk_canon(
            transform_key.ephemeral_public_key.x@,
            transform_key.ephemeral_public_key.y@,
        ) && Some((tk.to_public_key.x@, tk.to_public_key.y@)) == pk_canon(
            transform_key.to_public_key.x@,
            transform_key.to_public_key.y@,
        ) && tk.encrypted_temp_key@ == etk_canon(transform_key.encrypted_temp_key@)
            && tk.hashed_temp_key@ == augmented_hashed_key(
            transform_key.hashed_temp_key@,
            private_key@,
        ) && tk.public_signing_key@ == transform_key.public_signing_key@ && tk.signature@
            == transform_key.signature@,
        r matches Err(e) ==> is_engine_reported(e@),
{
    let tk = tk_to_engine(transform_key)?;
    let pk = recrypt::api::PrivateKey::new_from_slice(&private_key[..]).map_err(map_engine_error)?;
    match tk.augment(&pk) {
        Ok(augmented) => Ok(tk_from_engine(&augmented)),
        Err(e) => Err(map_engine_error(e)),
    }
}

/// Relies on recrypt's PublicKey::augment: accepted exactly when both keys
/// decode to curve points and their deterministic sum is not the zero
/// point, and then that sum's coordinates.
#[verifier::external_body]
pub(crate) fn engine_augment_public_key(
    current: &PublicKey256,
    other: &PublicKey256,
) -> (r: Result<PublicKey256, ApiError>)
    requires
        current.wf(),
        other.wf(),
    ensures
        r is Ok <==> (pk_canon(current.x@, current.y@) is Some && pk_canon(other.x@, other.y@)
            is Some && augmented_public_key((current.x@, current.y@), (other.x@, other.y@))
            is Some),
        r matches Ok(p) ==> p.wf() && Some((p.x@, p.y@)) == augmented_public_key(
            (current.x@, current.y@),
            (other.x@, other.y@),
        ),
        r matches Err(e) ==> is_engine_reported(e@),
{
    let cur = pk_to_engine(current)?;
    let oth = pk_to_engine(other)?;
    match cur.augment(&oth) {
        Ok(p) => Ok(pk_from_engine(&p)),
        Err(e) => Err(map_engine_error(e)),
    }
}

/// Relies on recrypt's PrivateKey::augment_plus: the deterministic sum in
/// the curve's scalar field, 32 bytes, total on 32-byte inputs, emitted in
/// the canonical encoding. The group laws hold of it: addition commutes and
/// associates, subtracting an addend recovers the other operand's canonical
/// form, and the sum's public-key image is the point augmentation of the
/// operands' images (the generator times a sum of scalars is the point sum
/// of the generator times each).
#[verifier::external_body]
pub(crate) fn engine_add_private_keys(a: &Vec<u8>, b: &Vec<u8>) -> (r: Vec<u8>)
    requires
        a@.len() == 32,
        b@.len() == 32,
    ensures
        r@ == private_key_sum(a@, b@),
        r@ == private_key_sum(b@, a@),
        r@.len() == 32,
        r@ == scalar_canon(r@),
        private_key_diff(r@, b@) == scalar_canon(a@),
        forall|c: Seq<u8>| #[trigger] private_key_sum(r@, c) == private_key_sum(
            a@,
            private_key_sum(b@, c),
        ),
        pk_scalar_ok(a@) && pk_scalar_ok(b@) && pk_scalar_ok(r@) && scalar_canon(a@) == a@
            && scalar_canon(b@) == b@ ==> augmented_public_key(
            public_key_of(a@),
            public_key_of(b@),
        ) == Some(public_key_of(r@)),
{
    let mut bytes_a = [0u8; 32];
    bytes_a.copy_from_slice(&a[..]);
    let mut bytes_b = [0u8; 32];
    bytes_b.copy_from_slice(&b[..]);
    let ka = recrypt::api::PrivateKey::new(bytes_a);
    let kb = recrypt::api::PrivateKey::new(bytes_b);
    ka.augment_plus(&kb).bytes().to_vec()
}

/// Relies on recrypt's PrivateKey::augment_minus: the deterministic
/// difference in the curve's scalar field, 32 bytes, total on 32-byte
/// inputs, emitted in the canonical encoding.
#[verifier::external_body]
pub(crate) fn engine_subtract_private_keys(a: &Vec<u8>, b: &Vec<u8>) -> (r: Vec<u8>)
    requires
        a@.len() == 32,
        b@.len() == 32,
    ensures
        r@ == private_key_diff(a@, b@),
        r@.len() == 32,
        r@ == scalar_canon(r@),
{
    let mut bytes_a = [0u8; 32];
    bytes_a.copy_from_slice(&a[..]);
    let mut bytes_b = [0u8; 32];
    bytes_b.copy_from_slice(&b[..]);
    let ka = recrypt::api::PrivateKey::new(bytes_a);
    let kb = recrypt::api::PrivateKey::new(bytes_b);
    ka.augment_minus(&kb).bytes().to_vec()
}

} // verus!
