//! The error taxonomy of the boundary layer.
//!
//! Validation failures are detected at the marshaling boundary and carry the
//! offending field with the expected and actual widths; failures reported by
//! the cryptographic engine are passed through with the engine's message.

use vstd::prelude::*;

verus! {

/// A typed failure returned by a boundary operation.
#[derive(Debug)]
pub enum ApiError {
    /// A byte buffer did not match its required fixed width.
    SizeMismatch { field: String, expected: usize, actual: usize },
    /// A non-empty transform-block chain was structurally required.
    EmptyChain,
    /// A well-sized buffer that the engine rejected as a scalar or curve point.
    InvalidKey { message: String },
    /// A signature failed verification inside the engine.
    SignatureInvalid { message: String },
    /// Any other failure surfaced from the engine, message passed through.
    EngineError { message: String },
}

/// The mathematical shape of an [`ApiError`].
pub enum ErrorModel {
    SizeMismatch { field: Seq<char>, expected: nat, actual: nat },
    EmptyChain,
    InvalidKey { message: Seq<char> },
    SignatureInvalid { message: Seq<char> },
    EngineError { message: Seq<char> },
}

impl View for ApiError {
    type V = ErrorModel;

    open spec fn view(&self) -> ErrorModel {
        match self {
            ApiError::SizeMismatch { field, expected, actual } => ErrorModel::SizeMismatch {
                field: field@,
                expected: *expected as nat,
                actual: *actual as nat,
            },
            ApiError::EmptyChain => ErrorModel::EmptyChain,
            ApiError::InvalidKey { message } => ErrorModel::InvalidKey { message: message@ },
            ApiError::SignatureInvalid { message } => ErrorModel::SignatureInvalid {
                message: message@,
            },
            ApiError::EngineError { message } => ErrorModel::EngineError { message: message@ },
        }
    }
}

/// True of every error that the engine can report; the marshaling layer's own
/// errors (a size mismatch, an empty chain) are never among them.
pub open spec fn is_engine_reported(e: ErrorModel) -> bool {
    match e {
        ErrorModel::InvalidKey { .. } => true,
        ErrorModel::SignatureInvalid { .. } => true,
        ErrorModel::EngineError { .. } => true,
        _ => false,
    }
}

/// True exactly when `r` failed with the error `e`.
pub open spec fn errs_with<T>(r: Result<T, ApiError>, e: ErrorModel) -> bool {
    match r {
        Err(a) => a@ == e,
        Ok(_) => false,
    }
}

/// A wrapper that carries an arbitrary error value across the boundary.
pub struct WasmError<E> {
    error: E,
}

impl<E> WasmError<E> {
    /// The wrapped error value.
    pub closed spec fn inner(&self) -> E {
        self.error
    }

    /// Wrap an error value.
    pub fn new(error: E) -> (r: WasmError<E>)
        ensures
            r.inner() == error,
    {
        WasmError { error }
    }
}

} // verus!
