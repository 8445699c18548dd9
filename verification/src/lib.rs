//! Boundary layer around a proxy re-encryption engine and an encrypted-search
//! hashing scheme: fixed-width validation, record marshaling, and the facade
//! operations that carry host records to the cryptographic engines and back.
#![allow(non_snake_case)]

pub mod api256;
pub mod codec;
pub mod engine;
pub mod engine_types;
pub mod errors;
pub mod marshal;
pub mod models;
pub mod records;
pub mod search;
pub mod values;
