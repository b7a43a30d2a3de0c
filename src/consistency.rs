//! Comparison of the local schema hash with a peer's.

use vstd::prelude::*;
use crate::error::ConsistencyError;

verus! {

/// The explanation given when the schema of `domain_name` differs from a
/// peer's.
pub open spec fn mismatch_message(domain_name: Seq<char>) -> Seq<char> {
    "Local ontology '"@ + domain_name
        + "' does not match network ontology. All participants must use the same domain ontology."@
}

/// Succeeds exactly when the two hashes are the same text; otherwise the
/// error carries both hashes unchanged and names the local domain.
pub fn check_consistency(local_hash: &str, network_hash: &str, domain_name: &str) -> (r: Result<
    (),
    ConsistencyError,
>)
    ensures
        r is Ok <==> local_hash@ == network_hash@,
        match r {
            Ok(_) => true,
            Err(e) => {
                &&& e.local_hash@ == local_hash@
                &&& e.network_hash@ == network_hash@
                &&& e.message@ == mismatch_message(domain_name@)
            },
        },
{
    let local = local_hash.to_owned();
    let network = network_hash.to_owned();
    if local == network {
        Ok(())
    } else {
        let message = "Local ontology '".to_owned().concat(domain_name).concat(
            "' does not match network ontology. All participants must use the same domain ontology.",
        );
        Err(ConsistencyError::new(local, network, message))
    }
}

} // verus!
