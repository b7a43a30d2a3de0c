//! The triple store: oxigraph's in-memory `Store`, reached through the
//! trusted items of this module.

use vstd::prelude::*;
use crate::rdf_format::RdfFormat;

verus! {

#[verifier::external_type_specification]
#[verifier::external_body]
pub struct ExStore(oxigraph::store::Store);

#[verifier::external_type_specification]
#[verifier::external_body]
pub struct ExStorageError(oxigraph::store::StorageError);

#[verifier::external_type_specification]
#[verifier::external_body]
pub struct ExLoaderError(oxigraph::store::LoaderError);

#[verifier::external_type_specification]
#[verifier::external_body]
pub struct ExEvaluationError(oxigraph::sparql::EvaluationError);

#[verifier::external_type_specification]
#[verifier::external_body]
pub struct ExQuerySolutionIter(oxigraph::sparql::QuerySolutionIter);

#[verifier::external_type_specification]
#[verifier::external_body]
pub struct ExQueryTripleIter(oxigraph::sparql::QueryTripleIter);

#[verifier::external_type_specification]
#[verifier::external_body]
pub struct ExQuerySolution(oxigraph::sparql::QuerySolution);

#[verifier::external_type_specification]
#[verifier::external_body]
pub struct ExTriple(oxigraph::model::Triple);

/// What a query returned, by kind.
pub enum QueryOutput {
    /// Solution rows of a SELECT query.
    Solutions(oxigraph::sparql::QuerySolutionIter),
    /// The answer of an ASK query.
    Boolean(bool),
    /// Triples of a CONSTRUCT or DESCRIBE query.
    Graph(oxigraph::sparql::QueryTripleIter),
}

/// `text` is valid RDF in `format`: what `Store::load_from_reader` decides,
/// from the format and the text alone.
pub uninterp spec fn parses_as(format: RdfFormat, text: Seq<char>) -> bool;

/// Relies on `oxigraph::store::Store::new`: a new, empty in-memory store;
/// the in-memory storage is always created.
#[verifier::external_body]
pub(crate) fn new_store() -> (r: Result<oxigraph::store::Store, oxigraph::store::StorageError>)
    ensures
        r is Ok,
{
    oxigraph::store::Store::new()
}

/// Relies on `oxigraph::store::Store::load_from_reader`: parses `content` in
/// `format` and adds its quads to `store`, all or none. Inserting into the
/// in-memory storage cannot fail, so it fails exactly when the text does not
/// parse.
#[verifier::external_body]
pub(crate) fn load_text(store: &oxigraph::store::Store, format: RdfFormat, content: &str) -> (r: Result<
    (),
    oxigraph::store::LoaderError,
>)
    ensures
        r is Ok <==> parses_as(format, content@),
{
    let format = match format {
        RdfFormat::Turtle => oxigraph::io::RdfFormat::Turtle,
        RdfFormat::RdfXml => oxigraph::io::RdfFormat::RdfXml,
        RdfFormat::NTriples => oxigraph::io::RdfFormat::NTriples,
        RdfFormat::NQuads => oxigraph::io::RdfFormat::NQuads,
    };
    store.load_from_reader(format, content.as_bytes())
}

/// Relies on `oxigraph::store::Store::query`: runs a SPARQL query; the
/// variants of `QueryResults` are handed on one for one.
#[verifier::external_body]
pub(crate) fn run_query(store: &oxigraph::store::Store, query: &str) -> (r: Result<
    QueryOutput,
    oxigraph::sparql::EvaluationError,
>) {
    match store.query(query)? {
        oxigraph::sparql::QueryResults::Solutions(s) => Ok(QueryOutput::Solutions(s)),
        oxigraph::sparql::QueryResults::Boolean(b) => Ok(QueryOutput::Boolean(b)),
        oxigraph::sparql::QueryResults::Graph(g) => Ok(QueryOutput::Graph(g)),
    }
}

/// Relies on `QuerySolutionIter::next`: the next solution row.
#[verifier::external_body]
pub(crate) fn next_solution(rows: &mut oxigraph::sparql::QuerySolutionIter) -> (r: Option<
    Result<oxigraph::sparql::QuerySolution, oxigraph::sparql::EvaluationError>,
>) {
    rows.next()
}

/// Relies on the `Debug` form of `QuerySolution`: the row as one line of
/// text.
#[verifier::external_body]
pub(crate) fn solution_text(solution: &oxigraph::sparql::QuerySolution) -> (r: String) {
    format!("{:?}", solution)
}

/// Relies on `QuerySolution::get` and `Literal::value`: the lexical form of
/// the literal bound to `?count` in the row, if it is bound to a literal.
#[verifier::external_body]
pub(crate) fn count_binding(solution: &oxigraph::sparql::QuerySolution) -> (r: Option<String>) {
    match solution.get("count") {
        Some(oxigraph::model::Term::Literal(l)) => Some(l.value().to_owned()),
        _ => None,
    }
}

/// Relies on `QueryTripleIter::next`: the next triple, written with its
/// `Display` form (N-Triples syntax).
#[verifier::external_body]
pub(crate) fn next_triple(triples: &mut oxigraph::sparql::QueryTripleIter) -> (r: Option<
    Result<String, oxigraph::sparql::EvaluationError>,
>) {
    match triples.next()? {
        Ok(triple) => Some(Ok(format!("{}", triple))),
        Err(e) => Some(Err(e)),
    }
}

} // verus!
