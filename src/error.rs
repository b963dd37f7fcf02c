//! Why a response could not be decoded.
use vstd::prelude::*;

verus! {

/// A failure to decode a response document. Each variant names the member
/// at fault, so that a change in the provider's schema can be diagnosed from
/// the error alone.
#[derive(Debug, Clone)]
pub enum DecodeError {
    /// The document lacks the member that wraps the payload.
    MissingEnvelope { envelope: String },
    /// A tolerant boolean member holds neither a boolean, null, nor one of the
    /// accepted words; `raw` is the string it held, or the JSON text of the value.
    InvalidBooleanEncoding { field: String, raw: String },
    /// A member whose shape the result depends on has the wrong JSON kind.
    Structure { field: String },
}

} // verus!
