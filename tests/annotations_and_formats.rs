use domain_ontology::loader::{extract_domain_info_from_ontology, load_domain_config, standard_transaction_types};
use domain_ontology::domain_config::DomainConfig;
use domain_ontology::manager::{
    bool_text, class_count_query, individual_count_query, property_count_query, render_rows, rows_result,
    OntologyManager,
};
use domain_ontology::rdf_format::{detect_format_with_extension, detect_rdf_format, RdfFormat};
use domain_ontology::schema::OntologyConfig;
use domain_ontology::stats::{count_from_value, OntologyStats};
use domain_ontology::error::OntologyError;

fn schema(name: &str, hash: &str) -> OntologyConfig {
    let mut c = OntologyConfig::for_domain_ontology(format!("{}.ttl", name));
    c.domain_name = name.to_string();
    c.ontology_hash = hash.to_string();
    c
}

#[test]
fn description_comes_from_the_first_comment() {
    let text = "ex:o a owl:Ontology ;\n  rdfs:comment \"Test ontology for domain management\" .\n  rdfs:comment \"second\" .";
    let d = load_domain_config(&schema("dairy", "h"), Some(text));
    assert_eq!(d.description, "Test ontology for domain management");
}

#[test]
fn default_description_without_a_comment() {
    let d = load_domain_config(&schema("dairy", "h"), Some("ex:a ex:b ex:c ."));
    assert_eq!(d.description, "Domain configuration for dairy");
    let d = load_domain_config(&schema("dairy", "h"), Some("rdfs:comment \"unterminated"));
    assert_eq!(d.description, "Domain configuration for dairy");
}

#[test]
fn missing_text_gives_the_standard_types_only() {
    let d = load_domain_config(&schema("dairy", "h"), None);
    assert_eq!(d.domain_name, "dairy");
    assert_eq!(d.description, "Domain configuration for dairy");
    assert_eq!(d.supported_transaction_types, standard_transaction_types());
    assert_eq!(d.supported_transaction_types.len(), 8);
    assert!(d.validation_rules.is_empty());
}

#[test]
fn a_type_annotation_adds_a_type() {
    let d = load_domain_config(&schema("dairy", "h"), Some("# Transaction type: Recall\n"));
    let mut expected = standard_transaction_types();
    expected.push("Recall".to_string());
    assert_eq!(d.supported_transaction_types, expected);
    let d = load_domain_config(&schema("dairy", "h"), Some("# Transaction type: Quality\r\n"));
    assert_eq!(d.supported_transaction_types, standard_transaction_types());
}

#[test]
fn a_rule_annotation_sets_a_rule() {
    let text = "# Validation rule: max_temperature=100\n# Validation rule: no_equals_sign\n#   Validation rule: x=1";
    let d = load_domain_config(&schema("dairy", "h"), Some(text));
    assert_eq!(d.get_validation_rule("max_temperature"), Some("100".to_string()));
    assert_eq!(d.validation_rules.len(), 1);
}

#[test]
fn rule_name_and_value_are_trimmed() {
    let mut d = DomainConfig::new("d".to_string(), "x".to_string());
    extract_domain_info_from_ontology(&mut d, "  # Validation rule:  a b = c=d  \r\n");
    assert_eq!(d.get_validation_rule("a b"), Some("c=d".to_string()));
}

#[test]
fn a_second_marker_ends_the_declared_type() {
    let mut d = DomainConfig::new("d".to_string(), "x".to_string());
    extract_domain_info_from_ontology(&mut d, "# Transaction type: A # Transaction type: B");
    assert_eq!(d.supported_transaction_types, vec!["A".to_string()]);
}

#[test]
fn prefix_content_is_turtle_with_owl_extension() {
    let content = "@prefix ex: <http://example.org/> .\nex:a ex:b ex:c .";
    assert_eq!(detect_rdf_format(content, "onto.owl"), RdfFormat::Turtle);
}

#[test]
fn prefix_anywhere_beats_the_extension() {
    let content = "<a> <b> <c> .\n# @prefix in a comment\n<?xml";
    assert_eq!(detect_rdf_format(content, "x.rdf"), RdfFormat::Turtle);
    assert_eq!(detect_rdf_format(content, "x.nt"), RdfFormat::Turtle);
}

#[test]
fn detection_is_repeatable() {
    let content = "<a> <b> <c> <g>";
    assert_eq!(detect_rdf_format(content, "data.nq"), detect_rdf_format(content, "data.nq"));
}

#[test]
fn xml_markers_are_rdf_xml() {
    assert_eq!(detect_rdf_format("  <?xml version=\"1.0\"?><r/>", "a.ttl"), RdfFormat::RdfXml);
    assert_eq!(detect_rdf_format("<x/><rdf:RDF></rdf:RDF>", "a"), RdfFormat::RdfXml);
}

#[test]
fn triple_lines_are_n_triples() {
    let content = "# comment\n\n<a> <b> <c> .\n  <a> <b> \"d\" .  \n";
    assert_eq!(detect_rdf_format(content, "a.ttl"), RdfFormat::NTriples);
    assert_eq!(detect_rdf_format("", "a.owl"), RdfFormat::NTriples);
}

#[test]
fn nq_extension_gives_n_quads() {
    let content = "<a> <b> <c> <g>";
    assert_eq!(detect_rdf_format(content, "dir/data.nq"), RdfFormat::NQuads);
    assert_eq!(detect_rdf_format(content, "dir/data.NQ"), RdfFormat::NQuads);
}

#[test]
fn extension_fallbacks() {
    let content = "ex:a ex:b ex:c";
    assert_eq!(detect_rdf_format(content, "a.ttl"), RdfFormat::Turtle);
    assert_eq!(detect_rdf_format(content, "a.Turtle"), RdfFormat::Turtle);
    assert_eq!(detect_rdf_format(content, "a.nt"), RdfFormat::NTriples);
    assert_eq!(detect_rdf_format(content, "a.owl"), RdfFormat::Turtle);
    assert_eq!(detect_rdf_format("x <?xml y", "a.xml"), RdfFormat::RdfXml);
    assert_eq!(detect_rdf_format(content, "a.json"), RdfFormat::Turtle);
    assert_eq!(detect_rdf_format(content, "noext"), RdfFormat::Turtle);
    assert_eq!(detect_rdf_format(content, "dir.nq/file"), RdfFormat::Turtle);
    assert_eq!(detect_format_with_extension(content, Some("nq".to_string())), RdfFormat::NQuads);
    assert_eq!(detect_format_with_extension(content, None), RdfFormat::Turtle);
}

#[test]
fn counts_read_from_the_count_value() {
    assert_eq!(count_from_value(&Some("42".to_string())), 42);
    assert_eq!(count_from_value(&Some("  7  ".to_string())), 7);
    assert_eq!(count_from_value(&Some("+5".to_string())), 5);
    assert_eq!(count_from_value(&Some("4294967295".to_string())), u32::MAX);
    assert_eq!(count_from_value(&Some("4294967296".to_string())), 0);
    assert_eq!(count_from_value(&Some("-1".to_string())), 0);
    assert_eq!(count_from_value(&Some("12a".to_string())), 0);
    assert_eq!(count_from_value(&Some("".to_string())), 0);
    assert_eq!(count_from_value(&None), 0);
}

#[test]
fn stats_from_count_values_are_independent() {
    let s = OntologyStats::from_count_values(&Some("3".to_string()), &None, &Some("9".to_string()));
    assert_eq!((s.class_count, s.property_count, s.individual_count), (3, 0, 9));
    assert_eq!(s.total_entities(), 12);
}

#[test]
fn query_rows_or_the_first_failure() {
    let rows = vec!["a".to_string(), "b".to_string()];
    assert_eq!(rows_result(&rows, None, "SPARQL solution").unwrap(), "a\nb\n");
    match rows_result(&rows, Some("broken".to_string()), "SPARQL quad") {
        Err(OntologyError::OntologyLoadError { path, message }) => {
            assert_eq!(path, "SPARQL quad");
            assert_eq!(message, "broken");
        }
        _ => panic!("expected a load error"),
    }
}

#[test]
fn rows_and_answers_are_written_as_lines() {
    assert_eq!(render_rows(&vec!["a".to_string(), "b".to_string()]), "a\nb\n");
    assert_eq!(render_rows(&vec![]), "");
    assert_eq!(bool_text(true), "true");
    assert_eq!(bool_text(false), "false");
}

const DOMAIN_TTL: &str = "@prefix ex: <http://example.org/> .\n@prefix owl: <http://www.w3.org/2002/07/owl#> .\n@prefix rdfs: <http://www.w3.org/2000/01/rdf-schema#> .\nex:onto a owl:Ontology ; rdfs:comment \"Dairy ontology\" .\n# Transaction type: Recall\nex:Batch a owl:Class .\nex:Milk a owl:Class .\nex:b1 a ex:Batch .\nex:temp a owl:DatatypeProperty .\n";

#[test]
fn managers_with_different_hashes_disagree() {
    let m1 = OntologyManager::new(schema("dairy", "hash-one"), Ok(None), Ok(DOMAIN_TTL.to_string())).unwrap();
    let m2 = OntologyManager::new(schema("dairy", "hash-two"), Ok(None), Ok(DOMAIN_TTL.to_string())).unwrap();
    let e = m1.check_ontology_consistency(m2.get_ontology_hash()).unwrap_err();
    assert_eq!(e.local_hash, "hash-one");
    assert_eq!(e.network_hash, "hash-two");
    assert!(e.message.contains("'dairy'"));
    assert!(m1.check_ontology_consistency("hash-one").is_ok());
}

#[test]
fn manager_reads_the_domain_annotations() {
    let m = OntologyManager::new(schema("dairy", "h"), Ok(None), Ok(DOMAIN_TTL.to_string())).unwrap();
    assert_eq!(m.get_domain_name(), "dairy");
    assert_eq!(m.domain_config.description, "Dairy ontology");
    assert_eq!(m.get_supported_transaction_types().len(), 9);
    assert_eq!(m.get_supported_transaction_types()[8], "Recall");
}

#[test]
fn manager_answers_queries() {
    let m = OntologyManager::new(schema("dairy", "h"), Ok(None), Ok(DOMAIN_TTL.to_string())).unwrap();
    assert_eq!(m.query_ontology("ASK { <http://example.org/Milk> a <http://www.w3.org/2002/07/owl#Class> }").unwrap(), "true");
    assert_eq!(m.query_ontology("ASK { <http://example.org/Cheese> ?p ?o }").unwrap(), "false");
    let rows = m.query_ontology("SELECT ?c WHERE { ?c a <http://www.w3.org/2002/07/owl#Class> }").unwrap();
    assert_eq!(rows.lines().count(), 2);
    assert!(rows.contains("http://example.org/Milk"));
    let triples = m.query_ontology("CONSTRUCT { ?s ?p ?o } WHERE { ?s a <http://example.org/Batch> . ?s ?p ?o }").unwrap();
    assert_eq!(triples, "<http://example.org/b1> <http://www.w3.org/1999/02/22-rdf-syntax-ns#type> <http://example.org/Batch>\n");
    match m.query_ontology("NOT SPARQL") {
        Err(OntologyError::OntologyLoadError { path, .. }) => assert_eq!(path, "SPARQL query"),
        _ => panic!("expected a query error"),
    }
}

#[test]
fn stats_never_fail() {
    let m = OntologyManager::new(schema("dairy", "h"), Ok(None), Ok(DOMAIN_TTL.to_string())).unwrap();
    let s = m.get_ontology_stats().unwrap();
    assert_eq!((s.class_count, s.property_count, s.individual_count), (2, 1, 1));
    assert_eq!(s.total_entities(), 4);
}

#[test]
fn core_ontology_is_loaded_too() {
    let core = "<http://example.org/Core> <http://www.w3.org/1999/02/22-rdf-syntax-ns#type> <http://www.w3.org/2002/07/owl#Class> .\n";
    let mut config = schema("dairy", "h");
    config.core_ontology_path = "core.nt".to_string();
    let m = OntologyManager::new(config, Ok(Some(core.to_string())), Ok(DOMAIN_TTL.to_string())).unwrap();
    assert_eq!(m.query_ontology("ASK { <http://example.org/Core> ?p ?o }").unwrap(), "true");
}

#[test]
fn failed_reload_keeps_the_old_state() {
    let mut m = OntologyManager::new(schema("dairy", "h"), Ok(None), Ok(DOMAIN_TTL.to_string())).unwrap();
    assert!(m.reload(Ok(None), Err("gone".to_string())).is_err());
    assert_eq!(m.domain_config.description, "Dairy ontology");
    assert_eq!(m.query_ontology("ASK { <http://example.org/Milk> ?p ?o }").unwrap(), "true");
    assert!(m.reload(Ok(None), Ok("# Transaction type: Audit\n".to_string())).is_ok());
    assert_eq!(m.domain_config.description, "Domain configuration for dairy");
    assert!(m.domain_config.supports_transaction_type("Audit"));
    assert_eq!(m.query_ontology("ASK { <http://example.org/Milk> ?p ?o }").unwrap(), "false");
}

#[test]
fn unparsable_core_file_is_a_parse_error_at_its_path() {
    let mut config = schema("dairy", "h");
    config.core_ontology_path = "core.nt".to_string();
    let r = OntologyManager::new(config, Ok(Some("<a> <b> .\n".to_string())), Ok(DOMAIN_TTL.to_string()));
    match r {
        Err(OntologyError::OntologyParseError { path, message }) => {
            assert_eq!(path, "core.nt");
            assert!(message.starts_with("Failed to parse core ontology: "));
        }
        _ => panic!("expected a parse error"),
    }
}

#[test]
fn count_queries_are_fixed() {
    assert!(class_count_query().contains("owl#Class"));
    assert!(property_count_query().contains("ObjectProperty") && property_count_query().contains("DatatypeProperty"));
    assert!(individual_count_query().contains("?individual a ?class"));
}
