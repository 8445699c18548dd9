//! Declarations that make the engine's value types known to the verifier.
//! Each is opaque: the wrappers in the engine module convert between these
//! and the crate's own validated types.

use vstd::prelude::*;

verus! {

#[verifier::external_type_specification]
#[verifier::external_body]
pub struct ExRecryptErr(recrypt::api::RecryptErr);

#[verifier::external_type_specification]
#[verifier::external_body]
pub struct ExPublicKey(recrypt::api::PublicKey);

#[verifier::external_type_specification]
#[verifier::external_body]
pub struct ExSigningKeypair(recrypt::api::SigningKeypair);

#[verifier::external_type_specification]
#[verifier::external_body]
pub struct ExTransformKey(recrypt::api::TransformKey);

#[verifier::external_type_specification]
#[verifier::external_body]
pub struct ExTransformBlock(recrypt::api::TransformBlock);

#[verifier::external_type_specification]
#[verifier::external_body]
pub struct ExEncryptedValue(recrypt::api::EncryptedValue);

#[verifier::external_type_specification]
#[verifier::external_body]
pub struct ExEncryptedMessage(recrypt::api::EncryptedMessage);

#[verifier::external_type_specification]
#[verifier::external_body]
pub struct ExAuthHash(recrypt::api::AuthHash);

#[verifier::external_type_specification]
#[verifier::external_body]
pub struct ExPublicSigningKey(recrypt::api::PublicSigningKey);

#[verifier::external_type_specification]
#[verifier::external_body]
pub struct ExEd25519Signature(recrypt::api::Ed25519Signature);

#[verifier::external_type_specification]
#[verifier::external_body]
pub struct ExEncryptedTempKey(recrypt::api::EncryptedTempKey);

#[verifier::external_type_specification]
#[verifier::external_body]
pub struct ExHashedValue(recrypt::api::HashedValue);

#[verifier::external_type_specification]
#[verifier::external_body]
#[verifier::reject_recursive_types(T)]
pub struct ExNonEmptyVec<T>(recrypt::nonemptyvec::NonEmptyVec<T>);

} // verus!
