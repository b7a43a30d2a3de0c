//! Errors of ontology loading and of the schema-version check.

use vstd::prelude::*;

verus! {

/// Failure to find, read or parse an ontology, or to run a query on it.
#[derive(Debug, Clone, PartialEq, Eq)]
pub enum OntologyError {
    /// A referenced ontology file does not exist.
    OntologyNotFound { path: String },
    /// Reading a file, or building or querying the store, failed.
    OntologyLoadError { path: String, message: String },
    /// A file was read but did not parse in its detected format.
    OntologyParseError { path: String, message: String },
}

/// The local schema version differs from a peer's.
#[derive(Debug, Clone, PartialEq, Eq)]
pub struct ConsistencyError {
    /// Hash of the local ontology.
    pub local_hash: String,
    /// Hash the peer reported.
    pub network_hash: String,
    /// Explanation naming the local domain.
    pub message: String,
}

impl ConsistencyError {
    pub fn new(local_hash: String, network_hash: String, message: String) -> (r: Self)
        ensures
            r.local_hash == local_hash,
            r.network_hash == network_hash,
            r.message == message,
    {
        ConsistencyError { local_hash, network_hash, message }
    }
}

} // verus!
