//! Domain ontology management: domain configuration derived from annotated
//! ontology text, RDF serialization detection, schema-version consistency
//! checks and schema statistics.

pub mod text;
pub mod rdf_format;
pub mod domain_config;
pub mod error;
pub mod schema;
pub mod loader;
pub mod consistency;
pub mod stats;
pub mod store;
pub mod manager;
