//! The ontology manager: owns the schema reference, the domain
//! configuration derived from it and the loaded triple store.

use vstd::prelude::*;
use crate::consistency::{check_consistency, mismatch_message};
use crate::domain_config::{str_views, DomainConfig};
use crate::error::{ConsistencyError, OntologyError};
use crate::loader::{is_loaded_config, load_domain_config};
use crate::rdf_format::{detect_rdf_format, detect_spec, extension_of};
use crate::schema::OntologyConfig;
use crate::stats::{count_of_value, opt_text, OntologyStats};
use crate::store::{
    count_binding, load_text, new_store, next_solution, next_triple, parses_as, run_query,
    solution_text, QueryOutput,
};

verus! {

/// The rows, each followed by a newline.
pub open spec fn join_lines(rows: Seq<Seq<char>>) -> Seq<char>
    decreases rows.len(),
{
    if rows.len() == 0 {
        Seq::empty()
    } else {
        join_lines(rows.drop_last()) + rows.last() + "\n"@
    }
}

/// The text that was read, if reading succeeded.
pub open spec fn text_of(r: Result<String, String>) -> Option<Seq<char>> {
    match r {
        Ok(s) => Some(s@),
        Err(_) => None,
    }
}

/// Writes the rows one per line.
pub fn render_rows(rows: &Vec<String>) -> (r: String)
    ensures
        r@ == join_lines(str_views(rows@)),
{
    let mut out = String::new();
    let mut i: usize = 0;
    while i < rows.len()
        invariant
            i <= rows.len(),
            out@ == join_lines(str_views(rows@).take(i as int)),
        decreases rows.len() - i,
    {
        assert(str_views(rows@).take(i + 1).drop_last() =~= str_views(rows@).take(i as int));
        out = out.concat(rows[i].as_str()).concat("\n");
        i += 1;
    }
    assert(str_views(rows@).take(rows.len() as int) =~= str_views(rows@));
    out
}

/// `true` or `false`, as an ASK query's answer is written.
pub fn bool_text(b: bool) -> (r: String)
    ensures
        r@ == if b {
            "true"@
        } else {
            "false"@
        },
{
    if b {
        "true".to_owned()
    } else {
        "false".to_owned()
    }
}

fn load_error(path: &str, message: String) -> (r: OntologyError)
    ensures
        match r {
            OntologyError::OntologyLoadError { path: p, message: m } => p@ == path@ && m == message,
            _ => false,
        },
{
    OntologyError::OntologyLoadError { path: path.to_owned(), message }
}

/// `e` is a load error naming `path`.
pub open spec fn is_load_error_at(e: OntologyError, path: Seq<char>) -> bool {
    match e {
        OntologyError::OntologyLoadError { path: p, .. } => p@ == path,
        _ => false,
    }
}

/// `e` is a load error naming `path` with the message `message`.
pub open spec fn is_load_error(e: OntologyError, path: Seq<char>, message: Seq<char>) -> bool {
    match e {
        OntologyError::OntologyLoadError { path: p, message: m } => p@ == path && m@ == message,
        _ => false,
    }
}

/// `e` is a parse error naming `path`, whose message starts with `prefix`.
pub open spec fn is_parse_error(e: OntologyError, path: Seq<char>, prefix: Seq<char>) -> bool {
    match e {
        OntologyError::OntologyParseError { path: p, message: m } => p@ == path && prefix.is_prefix_of(
            m@,
        ),
        _ => false,
    }
}

/// `text`, read from `path`, parses in the format detected for it.
pub open spec fn text_parses(text: Seq<char>, path: Seq<char>) -> bool {
    parses_as(detect_spec(text, extension_of(path)), text)
}

/// The core ontology is absent, or was read and parses.
pub open spec fn core_loads(config: OntologyConfig, core_content: Result<Option<String>, String>) -> bool {
    match core_content {
        Ok(None) => true,
        Ok(Some(t)) => text_parses(t@, config.core_ontology_path@),
        Err(_) => false,
    }
}

/// The domain ontology was read and parses.
pub open spec fn domain_loads(config: OntologyConfig, domain_content: Result<String, String>) -> bool {
    match domain_content {
        Ok(t) => text_parses(t@, config.domain_ontology_path@),
        Err(_) => false,
    }
}

/// Both ontology texts load into a store.
pub open spec fn ontology_loads(
    config: OntologyConfig,
    core_content: Result<Option<String>, String>,
    domain_content: Result<String, String>,
) -> bool {
    core_loads(config, core_content) && domain_loads(config, domain_content)
}

/// The error that loading gives: the first of reading the core ontology,
/// parsing it, reading the domain ontology and parsing it that fails.
pub open spec fn load_failure(
    e: OntologyError,
    config: OntologyConfig,
    core_content: Result<Option<String>, String>,
    domain_content: Result<String, String>,
) -> bool {
    if core_content is Err {
        is_load_error(e, config.core_ontology_path@, core_content->Err_0@)
    } else if !core_loads(config, core_content) {
        is_parse_error(e, config.core_ontology_path@, "Failed to parse core ontology: "@)
    } else if domain_content is Err {
        is_load_error(e, config.domain_ontology_path@, domain_content->Err_0@)
    } else {
        is_parse_error(e, config.domain_ontology_path@, "Failed to parse domain ontology: "@)
    }
}

/// A parse error at `path` whose message is `prefix` followed by `detail`.
fn parse_error(path: &str, prefix: &str, detail: String) -> (r: OntologyError)
    ensures
        is_parse_error(r, path@, prefix@),
{
    let message = prefix.to_owned().concat(detail.as_str());
    assert(prefix@.is_prefix_of(message@)) by {
        assert(message@.subrange(0, prefix@.len() as int) =~= prefix@);
    }
    OntologyError::OntologyParseError { path: path.to_owned(), message }
}

/// Reads the ontology texts into a new store. `core_content` is the core
/// ontology's text, `None` where that file does not exist, or the message
/// of the failure to read it; `domain_content` is the domain ontology's text
/// or the message of the failure to read it.
fn load_ontology_store(
    config: &OntologyConfig,
    core_content: &Result<Option<String>, String>,
    domain_content: &Result<String, String>,
) -> (r: Result<oxigraph::store::Store, OntologyError>)
    ensures
        r is Ok <==> ontology_loads(*config, *core_content, *domain_content),
        r is Err ==> load_failure(r->Err_0, *config, *core_content, *domain_content),
{
    let store = match new_store() {
        Ok(s) => s,
        Err(e) => return Err(load_error("RDF store creation", e.to_string())),
    };
    match core_content {
        Err(msg) => return Err(load_error(config.core_ontology_path.as_str(), msg.clone())),
        Ok(None) => {},
        Ok(Some(text)) => {
            let path = config.core_ontology_path.as_str();
            let format = detect_rdf_format(text.as_str(), path);
            match load_text(&store, format, text.as_str()) {
                Ok(()) => {},
                Err(e) => {
                    return Err(parse_error(path, "Failed to parse core ontology: ", e.to_string()));
                },
            }
        },
    }
    match domain_content {
        Err(msg) => Err(load_error(config.domain_ontology_path.as_str(), msg.clone())),
        Ok(text) => {
            let path = config.domain_ontology_path.as_str();
            let format = detect_rdf_format(text.as_str(), path);
            match load_text(&store, format, text.as_str()) {
                Ok(()) => Ok(store),
                Err(e) => Err(parse_error(path, "Failed to parse domain ontology: ", e.to_string())),
            }
        },
    }
}

/// The text of a query's rows as read: one row per line, in order, or,
/// where reading a row failed with `failure`, the load error at
/// `error_path` carrying it.
pub fn rows_result(rows: &Vec<String>, failure: Option<String>, error_path: &str) -> (r: Result<
    String,
    OntologyError,
>)
    ensures
        match failure {
            None => r is Ok && r->Ok_0@ == join_lines(str_views(rows@)),
            Some(m) => r is Err && is_load_error(r->Err_0, error_path@, m@),
        },
{
    match failure {
        None => Ok(render_rows(rows)),
        Some(m) => Err(load_error(error_path, m)),
    }
}

/// The text of an ASK answer, of solution rows or of triples.
pub open spec fn is_query_text(t: Seq<char>) -> bool {
    t == "true"@ || t == "false"@ || exists|rows: Seq<Seq<char>>| t == join_lines(rows)
}

/// The class count query.
pub fn class_count_query() -> (r: &'static str)
    ensures
        r@ == "SELECT (COUNT(DISTINCT ?class) AS ?count) WHERE {\n    ?class a <http://www.w3.org/2002/07/owl#Class> .\n}"@,
{
    "SELECT (COUNT(DISTINCT ?class) AS ?count) WHERE {\n    ?class a <http://www.w3.org/2002/07/owl#Class> .\n}"
}

/// The property count query: object and datatype properties, each once.
pub fn property_count_query() -> (r: &'static str)
    ensures
        r@ == "SELECT (COUNT(DISTINCT ?property) AS ?count) WHERE {\n    { ?property a <http://www.w3.org/2002/07/owl#ObjectProperty> } UNION\n    { ?property a <http://www.w3.org/2002/07/owl#DatatypeProperty> }\n}"@,
{
    "SELECT (COUNT(DISTINCT ?property) AS ?count) WHERE {\n    { ?property a <http://www.w3.org/2002/07/owl#ObjectProperty> } UNION\n    { ?property a <http://www.w3.org/2002/07/owl#DatatypeProperty> }\n}"
}

/// The individual count query: instances of some class typed as a class.
pub fn individual_count_query() -> (r: &'static str)
    ensures
        r@ == "SELECT (COUNT(DISTINCT ?individual) AS ?count) WHERE {\n    ?individual a ?class .\n    ?class a <http://www.w3.org/2002/07/owl#Class> .\n}"@,
{
    "SELECT (COUNT(DISTINCT ?individual) AS ?count) WHERE {\n    ?individual a ?class .\n    ?class a <http://www.w3.org/2002/07/owl#Class> .\n}"
}

/// Ontology manager for one domain.
pub struct OntologyManager {
    /// The schema reference the manager was built from.
    pub config: OntologyConfig,
    /// The domain configuration derived from it.
    pub domain_config: DomainConfig,
    /// The store holding the loaded ontologies.
    pub ontology_store: oxigraph::store::Store,
}

impl OntologyManager {
    /// Builds the manager for `config` from the texts of its ontology files
    /// (the core text is `None` where that file does not exist; an `Err`
    /// holds the message of a failed read). Fails, and builds nothing,
    /// where a file could not be read or does not parse.
    pub fn new(
        config: OntologyConfig,
        core_content: Result<Option<String>, String>,
        domain_content: Result<String, String>,
    ) -> (r: Result<Self, OntologyError>)
        ensures
            r is Ok <==> ontology_loads(config, core_content, domain_content),
            r is Err ==> load_failure(r->Err_0, config, core_content, domain_content),
            match r {
                Ok(m) => {
                    &&& m.config == config
                    &&& m.domain_config.wf()
                    &&& is_loaded_config(m.domain_config, config.domain_name@, text_of(domain_content))
                },
                Err(_) => true,
            },
    {
        let domain_config = match &domain_content {
            Ok(text) => load_domain_config(&config, Some(text.as_str())),
            Err(_) => load_domain_config(&config, None),
        };
        let ontology_store = load_ontology_store(&config, &core_content, &domain_content)?;
        Ok(OntologyManager { config, domain_config, ontology_store })
    }

    /// The schema reference for the domain ontology at `ontology_path`;
    /// `NotFound` with that path where the file does not exist.
    pub fn load_domain_ontology(ontology_path: &str, path_exists: bool) -> (r: Result<
        OntologyConfig,
        OntologyError,
    >)
        ensures
            r is Ok <==> path_exists,
            match r {
                Ok(c) => c.domain_ontology_path@ == ontology_path@,
                Err(e) => e is OntologyNotFound && e->OntologyNotFound_path@ == ontology_path@,
            },
    {
        if !path_exists {
            return Err(OntologyError::OntologyNotFound { path: ontology_path.to_owned() });
        }
        Ok(OntologyConfig::for_domain_ontology(ontology_path.to_owned()))
    }

    /// Compares this manager's schema hash with a peer's.
    pub fn check_ontology_consistency(&self, network_hash: &str) -> (r: Result<(), ConsistencyError>)
        ensures
            r is Ok <==> self.config.ontology_hash@ == network_hash@,
            match r {
                Ok(_) => true,
                Err(e) => {
                    &&& e.local_hash@ == self.config.ontology_hash@
                    &&& e.network_hash@ == network_hash@
                    &&& e.message@ == mismatch_message(self.domain_config.domain_name@)
                },
            },
    {
        check_consistency(
            self.config.ontology_hash.as_str(),
            network_hash,
            self.domain_config.domain_name.as_str(),
        )
    }

    /// The hash of the schema in use.
    pub fn get_ontology_hash(&self) -> (r: &str)
        ensures
            r@ == self.config.ontology_hash@,
    {
        self.config.ontology_hash.as_str()
    }

    /// The domain's name.
    pub fn get_domain_name(&self) -> (r: &str)
        ensures
            r@ == self.domain_config.domain_name@,
    {
        self.domain_config.domain_name.as_str()
    }

    /// The supported transaction types.
    pub fn get_supported_transaction_types(&self) -> (r: &[String])
        ensures
            r@ == self.domain_config.supported_transaction_types@,
    {
        self.domain_config.supported_transaction_types.as_slice()
    }

    /// Runs a SPARQL query on the loaded ontology. Solution rows and
    /// triples come one per line, in order; an ASK answer as `true` or
    /// `false`. A failed query or row is a load error.
    pub fn query_ontology(&self, sparql_query: &str) -> (r: Result<String, OntologyError>)
        ensures
            r is Ok ==> is_query_text(r->Ok_0@),
            r is Err ==> is_load_error_at(r->Err_0, "SPARQL query"@) || is_load_error_at(
                r->Err_0,
                "SPARQL solution"@,
            ) || is_load_error_at(r->Err_0, "SPARQL quad"@),
    {
        let output = match run_query(&self.ontology_store, sparql_query) {
            Ok(o) => o,
            Err(e) => return Err(load_error("SPARQL query", e.to_string())),
        };
        let mut lines: Vec<String> = Vec::new();
        let mut failure: Option<String> = None;
        let error_path: &str;
        match output {
            QueryOutput::Solutions(mut rows) => {
                error_path = "SPARQL solution";
                // A vector cannot hold `usize::MAX` strings, so the bound
                // never cuts the rows short.
                while lines.len() < usize::MAX
                    decreases usize::MAX - lines.len(),
                {
                    match next_solution(&mut rows) {
                        None => break,
                        Some(Ok(row)) => lines.push(solution_text(&row)),
                        Some(Err(e)) => {
                            failure = Some(e.to_string());
                            break;
                        },
                    }
                }
            },
            QueryOutput::Graph(mut triples) => {
                error_path = "SPARQL quad";
                while lines.len() < usize::MAX
                    decreases usize::MAX - lines.len(),
                {
                    match next_triple(&mut triples) {
                        None => break,
                        Some(Ok(line)) => lines.push(line),
                        Some(Err(e)) => {
                            failure = Some(e.to_string());
                            break;
                        },
                    }
                }
            },
            QueryOutput::Boolean(b) => return Ok(bool_text(b)),
        }
        let r = rows_result(&lines, failure, error_path);
        assert(r is Ok ==> is_query_text(r->Ok_0@)) by {
            if r is Ok {
                assert(r->Ok_0@ == join_lines(str_views(lines@)));
            }
        }
        r
    }

    /// The `?count` value of the first row that `query` gives, if the
    /// query succeeds and gives a row with a literal count.
    fn first_count_value(&self, query: &str) -> (r: Option<String>) {
        match run_query(&self.ontology_store, query) {
            Ok(QueryOutput::Solutions(mut rows)) => match next_solution(&mut rows) {
                Some(Ok(row)) => count_binding(&row),
                _ => None,
            },
            _ => None,
        }
    }

    /// Counts classes, properties and individuals, each from its own query;
    /// a count whose query fails or gives no integer is zero.
    pub fn get_ontology_stats(&self) -> (r: Result<OntologyStats, OntologyError>)
        ensures
            r is Ok,
    {
        let classes = self.first_count_value(class_count_query());
        let properties = self.first_count_value(property_count_query());
        let individuals = self.first_count_value(individual_count_query());
        Ok(OntologyStats::from_count_values(&classes, &properties, &individuals))
    }

    /// Re-derives the domain configuration and the store from the schema
    /// reference and the files' current texts, and replaces both only when
    /// all of it succeeded.
    pub fn reload(
        &mut self,
        core_content: Result<Option<String>, String>,
        domain_content: Result<String, String>,
    ) -> (r: Result<(), OntologyError>)
        ensures
            r is Ok <==> ontology_loads(old(self).config, core_content, domain_content),
            r is Err ==> load_failure(r->Err_0, old(self).config, core_content, domain_content),
            match r {
                Ok(_) => {
                    &&& final(self).config == old(self).config
                    &&& final(self).domain_config.wf()
                    &&& is_loaded_config(
                        final(self).domain_config,
                        old(self).config.domain_name@,
                        text_of(domain_content),
                    )
                },
                Err(_) => *final(self) == *old(self),
            },
    {
        let domain_config = match &domain_content {
            Ok(text) => load_domain_config(&self.config, Some(text.as_str())),
            Err(_) => load_domain_config(&self.config, None),
        };
        let ontology_store = load_ontology_store(&self.config, &core_content, &domain_content)?;
        self.domain_config = domain_config;
        self.ontology_store = ontology_store;
        Ok(())
    }
}

} // verus!
