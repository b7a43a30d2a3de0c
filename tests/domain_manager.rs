use domain_ontology::consistency::check_consistency;
use domain_ontology::domain_config::DomainConfig;
use domain_ontology::error::OntologyError;
use domain_ontology::manager::OntologyManager;
use domain_ontology::schema::OntologyConfig;
use domain_ontology::stats::OntologyStats;
use std::path::Path;

#[test]
fn test_domain_config_creation() {
    let mut config = DomainConfig::new("test_domain".to_string(), "Test domain description".to_string());

    assert_eq!(config.domain_name, "test_domain");
    assert_eq!(config.description, "Test domain description");
    assert!(config.supported_transaction_types.is_empty());

    config.add_transaction_type("Production".to_string());
    assert!(config.supports_transaction_type("Production"));
    assert!(!config.supports_transaction_type("Unknown"));
}

#[test]
fn test_domain_config_validation_rules() {
    let mut config = DomainConfig::new("test_domain".to_string(), "Test domain".to_string());

    config.add_validation_rule("min_temperature".to_string(), "0".to_string());
    config.add_validation_rule("max_temperature".to_string(), "100".to_string());

    assert_eq!(config.get_validation_rule("min_temperature"), Some("0".to_string()));
    assert_eq!(config.get_validation_rule("max_temperature"), Some("100".to_string()));
}

#[test]
fn test_load_domain_ontology() {
    let ontology_path = "test_dir/test_ontology.owl";
    let result = OntologyManager::load_domain_ontology(ontology_path, true);
    assert!(result.is_ok());

    let config = result.unwrap();
    assert_eq!(config.domain_ontology_path, ontology_path);
}

#[test]
fn test_ontology_not_found() {
    let path = "nonexistent/ontology.owl";
    let result = OntologyManager::load_domain_ontology(path, Path::new(path).exists());
    assert!(result.is_err());

    match result.unwrap_err() {
        OntologyError::OntologyNotFound { path } => {
            assert_eq!(path, "nonexistent/ontology.owl");
        }
        _ => panic!("Expected OntologyNotFound error"),
    }
}

#[test]
fn test_ontology_stats() {
    let stats = OntologyStats { class_count: 10, property_count: 20, individual_count: 5 };

    assert_eq!(stats.total_entities(), 35);
}

#[test]
fn fresh_config_is_empty() {
    let config = DomainConfig::new("d".to_string(), "x".to_string());
    assert!(config.supported_transaction_types.is_empty());
    assert!(config.validation_rules.is_empty());
    assert_eq!(config.get_validation_rule("anything"), None);
}

#[test]
fn adding_a_type_twice_keeps_one() {
    let mut config = DomainConfig::new("d".to_string(), "x".to_string());
    config.add_transaction_type("Transport".to_string());
    config.add_transaction_type("Quality".to_string());
    config.add_transaction_type("Transport".to_string());
    assert_eq!(config.supported_transaction_types, vec!["Transport".to_string(), "Quality".to_string()]);
}

#[test]
fn supported_types_match_exactly() {
    let mut config = DomainConfig::new("d".to_string(), "x".to_string());
    config.add_transaction_type("Recall".to_string());
    assert!(config.supports_transaction_type("Recall"));
    assert!(!config.supports_transaction_type("recall"));
    assert!(!config.supports_transaction_type("Recall "));
    assert!(!config.supports_transaction_type(""));
}

#[test]
fn a_rule_set_again_takes_the_new_value() {
    let mut config = DomainConfig::new("d".to_string(), "x".to_string());
    config.add_validation_rule("max".to_string(), "1".to_string());
    config.add_validation_rule("max".to_string(), "2".to_string());
    assert_eq!(config.validation_rules.len(), 1);
    assert_eq!(config.get_validation_rule("max"), Some("2".to_string()));
}

#[test]
fn consistency_succeeds_on_equal_hashes() {
    assert!(check_consistency("abc123", "abc123", "dairy").is_ok());
}

#[test]
fn consistency_error_carries_both_hashes() {
    let e = check_consistency("abc123", "abc124", "dairy").unwrap_err();
    assert_eq!(e.local_hash, "abc123");
    assert_eq!(e.network_hash, "abc124");
    assert_eq!(
        e.message,
        "Local ontology 'dairy' does not match network ontology. All participants must use the same domain ontology."
    );
    assert!(check_consistency("abc", "ABC", "dairy").is_err());
}

#[test]
fn total_of_zero_counts_is_zero() {
    assert_eq!(OntologyStats::new().total_entities(), 0);
}

#[test]
fn total_of_largest_counts_does_not_wrap() {
    let stats = OntologyStats { class_count: u32::MAX, property_count: u32::MAX, individual_count: u32::MAX };
    assert_eq!(stats.total_entities(), 3 * (u32::MAX as u64));
}

#[test]
fn missing_domain_file_fails_the_manager() {
    let mut config = OntologyConfig::for_domain_ontology("domain.ttl".to_string());
    config.domain_name = "dairy".to_string();
    let r = OntologyManager::new(config, Ok(None), Err("no such file".to_string()));
    match r {
        Err(OntologyError::OntologyLoadError { path, message }) => {
            assert_eq!(path, "domain.ttl");
            assert_eq!(message, "no such file");
        }
        _ => panic!("expected a load error"),
    }
}

#[test]
fn unreadable_core_file_fails_the_manager() {
    let mut config = OntologyConfig::for_domain_ontology("domain.ttl".to_string());
    config.core_ontology_path = "core.ttl".to_string();
    let r = OntologyManager::new(config, Err("denied".to_string()), Ok(String::new()));
    match r {
        Err(OntologyError::OntologyLoadError { path, .. }) => assert_eq!(path, "core.ttl"),
        _ => panic!("expected a load error"),
    }
}

#[test]
fn unparsable_domain_file_is_a_parse_error() {
    let config = OntologyConfig::for_domain_ontology("domain.ttl".to_string());
    let r = OntologyManager::new(config, Ok(None), Ok("@prefix ex: <http://example.org/> .\nex:a ex:b".to_string()));
    match r {
        Err(OntologyError::OntologyParseError { path, message }) => {
            assert_eq!(path, "domain.ttl");
            assert!(message.starts_with("Failed to parse domain ontology: "));
        }
        _ => panic!("expected a parse error"),
    }
}

#[test]
fn default_stats_are_zero() {
    let s = OntologyStats::default();
    assert_eq!((s.class_count, s.property_count, s.individual_count), (0, 0, 0));
}
