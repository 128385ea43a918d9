use vstd::prelude::*;

verus! {

/// The deserialisation error of serde_json, carried through unchanged.
#[verifier::external_type_specification]
#[verifier::external_body]
pub struct ExJsonError(serde_json::Error);

/// Why a search failed. Every kind ends the search; none is retried.
#[derive(Debug)]
pub enum VectorStoreError {
    /// The embedding model could not embed the query text.
    EmbeddingError(String),
    /// The store failed to build or run the query.
    DatastoreError(String),
    /// A row could not be decoded into the requested payload type.
    JsonError(serde_json::Error),
}

/// Wraps a payload decoding error.
pub fn serde_to_revicta_error(e: serde_json::Error) -> (r: VectorStoreError)
    ensures
        r == VectorStoreError::JsonError(e),
{
    VectorStoreError::JsonError(e)
}

} // verus!
