use arkaft_mcp_google_adk::expert::adk_knowledge::{AdkKnowledgeBase, DocumentationUrls, VersionConfig};
use arkaft_mcp_google_adk::expert::documentation::{
    extract_url_title, format_documentation_response, generate_comprehensive_links,
    DocumentationReferenceGenerator,
};
use arkaft_mcp_google_adk::expert::DocumentationExpert;

#[test]
fn stable_and_latest_share_a_target() {
    let config = VersionConfig::new(None);
    assert_eq!(config.resolve_version("stable"), config.resolve_version("latest"));
    assert_eq!(config.resolve_version("latest"), "1.0.0");
    assert_eq!(config.resolve_version("unknown-x"), "unknown-x");
    let kb = AdkKnowledgeBase::new();
    assert_eq!(kb.resolve_version("stable"), "1.0.0");
    assert_eq!(kb.resolve_version("unknown-x"), "unknown-x");
}

#[test]
fn configured_default_version_is_kept() {
    let config = VersionConfig::new(Some("2.0.0".to_string()));
    assert_eq!(config.default_version, "2.0.0");
    assert_eq!(VersionConfig::new(None).default_version, "latest");
}

#[test]
fn alias_can_be_redirected() {
    let mut config = VersionConfig::new(None);
    config.set_alias("stable".to_string(), "0.9.0".to_string());
    assert_eq!(config.resolve_version("stable"), "0.9.0");
    assert_eq!(config.resolve_version("latest"), "1.0.0");
    assert_eq!(config.version_aliases.len(), 2);
    config.set_alias("beta".to_string(), "1.1.0".to_string());
    assert_eq!(config.resolve_version("beta"), "1.1.0");
}

#[test]
fn versions_are_added_once() {
    let mut config = VersionConfig::new(None);
    assert!(config.is_version_available("stable"));
    assert!(!config.is_version_available("2.0.0"));
    config.add_version("2.0.0".to_string());
    config.add_version("2.0.0".to_string());
    assert_eq!(config.available_versions.len(), 3);
    assert!(config.is_version_available("2.0.0"));
}

#[test]
fn knowledge_base_with_config_uses_its_latest() {
    let mut config = VersionConfig::new(None);
    config.set_alias("latest".to_string(), "3.0.0".to_string());
    let kb = AdkKnowledgeBase::with_version_config(config);
    assert_eq!(kb.default_version, "3.0.0");
    // No bundle under 3.0.0, and the default has none either.
    assert!(kb.get_version_docs("3.0.0").is_none());
    assert_eq!(kb.get_available_versions(), vec!["1.0.0".to_string(), "latest".to_string()]);
}

#[test]
fn docs_fall_back_to_default_version() {
    let kb = AdkKnowledgeBase::new();
    assert_eq!(kb.get_version_docs("no-such").unwrap().version, "1.0.0");
    assert_eq!(kb.get_version_docs("stable").unwrap().version, "1.0.0");
}

#[test]
fn update_replaces_a_bundle() {
    let mut kb = AdkKnowledgeBase::new();
    let mut docs = kb.get_version_docs("1.0.0").unwrap().clone();
    docs.version = "2.0.0".to_string();
    kb.update_version_docs("2.0.0".to_string(), docs.clone());
    assert_eq!(kb.version_docs.len(), 2);
    assert_eq!(kb.get_version_docs("2.0.0").unwrap().version, "2.0.0");
    kb.update_version_docs("2.0.0".to_string(), docs);
    assert_eq!(kb.version_docs.len(), 2);
}

#[test]
fn concept_search_ignores_case() {
    let kb = AdkKnowledgeBase::new();
    let hits = kb.search_concepts("BEST PRACTICES", None);
    assert_eq!(hits.len(), 2);
    assert_eq!(hits[0].name, "Application Development Kit (ADK)");
    assert_eq!(hits[1].name, "ADK Best Practices");
    let toolkit = kb.search_concepts("toolkit", Some("latest"));
    assert_eq!(toolkit.len(), 1);
    assert_eq!(toolkit[0].name, "Application Development Kit (ADK)");
    assert!(kb.search_concepts("quantum", None).is_empty());
    assert_eq!(kb.search_concepts("", None).len(), 2);
}

#[test]
fn practices_by_category_match_exactly_ignoring_ascii_case() {
    let kb = AdkKnowledgeBase::new();
    let found = kb.get_best_practices_by_category("architecture", None);
    assert_eq!(found.len(), 1);
    assert!(found.iter().all(|p| p.category == "architecture"));
    assert_eq!(kb.get_best_practices_by_category("ARCHITECTURE", None).len(), 1);
    assert!(kb.get_best_practices_by_category("arch", None).is_empty());
}

#[test]
fn patterns_are_found_by_key() {
    let kb = AdkKnowledgeBase::new();
    assert_eq!(kb.get_implementation_pattern("basic_setup", None).unwrap().name, "Basic ADK Setup");
    assert!(kb.get_implementation_pattern("Basic ADK Setup", None).is_none());
}

#[test]
fn urls_by_category() {
    let urls = DocumentationUrls::new();
    assert_eq!(urls.get_all_urls().len(), 5);
    assert_eq!(urls.get_urls_by_category("QuickStart"), vec![urls.quickstart.clone()]);
    assert_eq!(urls.get_urls_by_category("reference"), urls.api_reference);
    assert_eq!(urls.get_urls_by_category("guides"), urls.tutorials);
    assert_eq!(urls.get_urls_by_category("practices"), urls.best_practices);
    assert_eq!(urls.get_urls_by_category("migration"), urls.migration_guides);
    assert_eq!(urls.get_urls_by_category("other"), urls.get_all_urls());
}

#[test]
fn url_titles() {
    assert_eq!(extract_url_title("https://x/get-started/quickstart/"), "Google ADK Quickstart Guide");
    assert_eq!(extract_url_title("https://x/api/"), "Google ADK API Reference");
    assert_eq!(extract_url_title("https://x/tutorials/"), "Google ADK Tutorials");
    assert_eq!(extract_url_title("https://x/best-practices/"), "Google ADK Best Practices");
    assert_eq!(extract_url_title("https://x/migration/"), "Google ADK Migration Guide");
    assert_eq!(extract_url_title("https://x/"), "Google ADK Documentation");
}

#[test]
fn documentation_response_text() {
    let refs = vec!["https://x/api/".to_string(), "https://x/".to_string()];
    let text = format_documentation_response("q", "body", "1.0.0", &refs);
    assert_eq!(
        text,
        "## Google ADK Documentation Query: q\n\n**Version:** 1.0.0\n\nbody\n\n### Official References:\n- [Google ADK API Reference](https://x/api/)\n- [Google ADK Documentation](https://x/)\n\n*Information based on official Google ADK documentation (version: 1.0.0)*"
    );
}

#[test]
fn comprehensive_links_follow_the_query() {
    let kb = AdkKnowledgeBase::new();
    let links = generate_comprehensive_links("API guide for best practice", "1.0.0", &kb);
    assert_eq!(
        links,
        vec![
            "https://google.github.io/adk-docs/get-started/quickstart/".to_string(),
            "https://google.github.io/adk-docs/api/".to_string(),
            "https://google.github.io/adk-docs/tutorials/".to_string(),
            "https://google.github.io/adk-docs/best-practices/".to_string(),
        ]
    );
    assert_eq!(generate_comprehensive_links("hello", "1.0.0", &kb).len(), 1);
}

#[test]
fn reference_generator_lists() {
    let generator = DocumentationReferenceGenerator::new(AdkKnowledgeBase::new());
    assert_eq!(generator.generate_official_references(None).len(), 5);
    assert_eq!(
        generator.generate_category_references("best_practices", None),
        vec!["https://google.github.io/adk-docs/best-practices/".to_string()]
    );
    assert_eq!(
        generator.generate_concept_references("best_practices", None),
        vec!["https://google.github.io/adk-docs/get-started/quickstart/".to_string()]
    );
    assert_eq!(generator.generate_concept_references("nothing", None).len(), 5);
}

#[test]
fn expert_answers_a_concept_query() {
    let expert = DocumentationExpert::new();
    let text = expert.query_documentation("recommended practices", None);
    assert!(text.starts_with("## ADK Best Practices\n\n**Version:** 1.0.0\n\n"));
    assert!(text.contains("### Examples:\n- Code organization patterns\n- Performance optimization techniques"));
    assert!(text.contains("### Related Concepts:\n- architecture_patterns"));
    assert!(text.contains("Official References"));
    assert!(text.contains("google.github.io/adk-docs"));
}

#[test]
fn expert_answers_a_general_query() {
    let expert = DocumentationExpert::new();
    let text = expert.query_documentation("async programming patterns", Some("latest"));
    assert!(text.starts_with("## Google ADK Documentation Query: async programming patterns\n\n**Version:** 1.0.0"));
    assert!(text.contains("here's information about 'async programming patterns'"));
    assert!(text.contains("- [Google ADK Quickstart Guide](https://google.github.io/adk-docs/get-started/quickstart/)"));
}

#[test]
fn expert_best_practices_text() {
    let expert = DocumentationExpert::new();
    let text = expert.get_best_practices(Some("architecture"), None);
    assert!(text.starts_with("## Google ADK Documentation Query: Best Practices - architecture"));
    assert!(text.contains("### Follow Official ADK Patterns\n\n**Category:** architecture"));
    let none = expert.get_best_practices(Some("security"), Some("1.0.0"));
    assert_eq!(
        none,
        "No best practices found for category 'security' in version 1.0.0. Please refer to the official documentation for the latest guidelines."
    );
    let all = expert.get_best_practices(None, None);
    assert!(all.contains("\n\n---\n\n### Version-Aware Development"));
}

#[test]
fn expert_pattern_text() {
    let expert = DocumentationExpert::new();
    let text = expert.get_implementation_pattern("basic_setup", None);
    assert!(text.starts_with("## Google ADK Documentation Query: Implementation Pattern: basic_setup"));
    assert!(text.contains("### Basic ADK Setup\n\nStandard pattern for setting up a new ADK project.\n\n**Use Cases:**\n- New project initialization"));
    assert!(text.contains("#### Basic Configuration\n\n```rust\n"));
    let missing = expert.get_implementation_pattern("nope", None);
    assert_eq!(
        missing,
        "Implementation pattern 'nope' not found for version 1.0.0. Please refer to the official documentation for available patterns."
    );
    assert_eq!(expert.get_available_versions().len(), 2);
}
