//! The schema reference: where a domain's ontology and constraint shapes
//! live, and the hash that identifies the schema version.

use vstd::prelude::*;

verus! {

/// Paths of the ontology and shape files of one domain, and the hash of
/// that schema set.
#[derive(Debug, Clone, PartialEq, Eq)]
pub struct OntologyConfig {
    /// Name of the domain the schema describes.
    pub domain_name: String,
    /// Core ontology, loaded when the file exists.
    pub core_ontology_path: String,
    /// Domain ontology, which must exist.
    pub domain_ontology_path: String,
    /// Core constraint shapes.
    pub core_shacl_path: String,
    /// Domain constraint shapes.
    pub domain_shacl_path: String,
    /// Fingerprint of the ontology and shape files in use.
    pub ontology_hash: String,
}

impl OntologyConfig {
    /// A schema reference for the domain ontology at `domain_ontology_path`,
    /// with every other entry empty.
    pub fn for_domain_ontology(domain_ontology_path: String) -> (r: Self)
        ensures
            r.domain_ontology_path == domain_ontology_path,
            r.domain_name@ == Seq::<char>::empty(),
            r.core_ontology_path@ == Seq::<char>::empty(),
            r.core_shacl_path@ == Seq::<char>::empty(),
            r.domain_shacl_path@ == Seq::<char>::empty(),
            r.ontology_hash@ == Seq::<char>::empty(),
    {
        OntologyConfig {
            domain_name: String::new(),
            core_ontology_path: String::new(),
            domain_ontology_path,
            core_shacl_path: String::new(),
            domain_shacl_path: String::new(),
            ontology_hash: String::new(),
        }
    }

    /// The domain's name.
    pub fn domain_name(&self) -> (r: String)
        ensures
            r@ == self.domain_name@,
    {
        self.domain_name.clone()
    }
}

} // verus!
