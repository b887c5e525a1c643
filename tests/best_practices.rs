use arkaft_mcp_google_adk::expert::adk_knowledge::AdkKnowledgeBase;
use arkaft_mcp_google_adk::expert::best_practices::{
    BestPracticesEnforcer, PatternMatcher, ValidationRules, ValidationSeverity,
};

#[test]
fn test_best_practices_enforcer_creation() {
    let enforcer = BestPracticesEnforcer::new();
    assert!(!enforcer.knowledge_base.default_version.is_empty());
    assert!(!enforcer.validation_rules.architecture_rules.is_empty());
    assert!(!enforcer.validation_rules.code_pattern_rules.is_empty());
}

#[test]
fn test_validate_architecture_compliant() {
    let enforcer = BestPracticesEnforcer::new();
    let description = "A well-structured ADK application using async patterns and proper error handling with Result types";
    let result = enforcer.validate_architecture(description, None, None);
    assert!(result.compliance_score > 50);
    assert!(!result.documentation_refs.is_empty());
}

#[test]
fn test_validate_architecture_with_issues() {
    let enforcer = BestPracticesEnforcer::new();
    let description = "Application with blocking operations and panic-based error handling";
    let result = enforcer.validate_architecture(description, None, None);
    assert!(!result.findings.is_empty());
    assert!(!result.recommendations.is_empty());
}

#[test]
fn best_practices_tests_test_validate_architecture_with_code_snippets() {
    let enforcer = BestPracticesEnforcer::new();
    let description = "Standard ADK application";
    let code_snippets = vec![
        "fn main() { panic!(\"This is bad\"); }".to_string(),
        "let result = some_operation().unwrap();".to_string(),
    ];
    let result = enforcer.validate_architecture(description, Some(&code_snippets), None);
    assert!(!result.findings.is_empty());
    let has_panic_finding = result.findings.iter().any(|f| f.description.contains("panic"));
    let has_unwrap_finding = result.findings.iter().any(|f| f.description.contains("unwrap"));
    assert!(has_panic_finding || has_unwrap_finding);
}

#[test]
fn test_get_best_practices_general() {
    let enforcer = BestPracticesEnforcer::new();
    let scenario = "application development";
    let result = enforcer.get_best_practices(scenario, None, None);
    assert_eq!(result.scenario, scenario);
    assert!(!result.version.is_empty());
    assert!(!result.documentation_refs.is_empty());
}

#[test]
fn test_get_best_practices_by_category() {
    let enforcer = BestPracticesEnforcer::new();
    let scenario = "development";
    let category = "architecture";
    let result = enforcer.get_best_practices(scenario, Some(category), None);
    assert_eq!(result.scenario, scenario);
    for practice in &result.practices {
        assert_eq!(practice.category, category);
    }
}

#[test]
fn best_practices_tests_test_get_best_practices_with_version() {
    let enforcer = BestPracticesEnforcer::new();
    let result = enforcer.get_best_practices("development", None, Some("1.0.0"));
    assert_eq!(result.version, "1.0.0");
}

#[test]
fn test_validation_rules_creation() {
    let rules = ValidationRules::new();
    assert!(!rules.architecture_rules.is_empty());
    assert!(!rules.code_pattern_rules.is_empty());
    assert!(!rules.best_practice_rules.is_empty());
    let has_error_handling = rules.architecture_rules.iter().any(|r| r.category == "error_handling");
    assert!(has_error_handling);
    let has_unwrap_rule = rules.code_pattern_rules.iter().any(|r| r.pattern.contains("unwrap"));
    assert!(has_unwrap_rule);
}

#[test]
fn test_pattern_matcher_creation() {
    let matcher = PatternMatcher::new();
    assert!(!matcher.architecture_patterns.is_empty());
    assert!(!matcher.code_patterns.is_empty());
    assert!(matcher.architecture_patterns.iter().any(|(k, _)| k == "adk_standard"));
    assert!(matcher.code_patterns.iter().any(|(k, _)| k == "error_handling"));
}

#[test]
fn test_validation_severity_levels() {
    let rules = ValidationRules::new();
    let has_error = rules.architecture_rules.iter().any(|r| r.severity == ValidationSeverity::Error);
    let has_warning =
        rules.architecture_rules.iter().any(|r| r.severity == ValidationSeverity::Warning);
    assert!(has_error);
    assert!(has_warning);
}

#[test]
fn test_architecture_validation_result_structure() {
    let enforcer = BestPracticesEnforcer::new();
    let result = enforcer.validate_architecture("Test architecture description", None, None);
    assert!(result.compliance_score <= 100);
    assert!(!result.documentation_refs.is_empty());
    assert!(result.documentation_refs.iter().any(|url| url.contains("quickstart")));
}

#[test]
fn test_best_practices_result_structure() {
    let enforcer = BestPracticesEnforcer::new();
    let scenario = "test scenario";
    let result = enforcer.get_best_practices(scenario, None, None);
    assert_eq!(result.scenario, scenario);
    assert!(!result.version.is_empty());
    assert!(!result.documentation_refs.is_empty());
    for doc_ref in &result.documentation_refs {
        assert!(doc_ref.starts_with("http"));
    }
}

#[test]
fn test_enforcer_with_custom_knowledge_base() {
    let knowledge_base = AdkKnowledgeBase::new();
    let enforcer = BestPracticesEnforcer::with_knowledge_base(knowledge_base);
    let result = enforcer.get_best_practices("test", None, None);
    assert!(!result.version.is_empty());
}

#[test]
fn test_validation_finding_creation() {
    let enforcer = BestPracticesEnforcer::new();
    let result =
        enforcer.validate_architecture("Application with panic-based error handling", None, None);
    if !result.findings.is_empty() {
        let finding = &result.findings[0];
        assert!(!finding.id.is_empty());
        assert!(!finding.rule_id.is_empty());
        assert!(!finding.description.is_empty());
    }
}

#[test]
fn test_recommendation_generation() {
    let enforcer = BestPracticesEnforcer::new();
    let code_snippets = vec!["panic!(\"error\")".to_string()];
    let result = enforcer.validate_architecture("test", Some(&code_snippets), None);
    if !result.recommendations.is_empty() {
        let rec = &result.recommendations[0];
        assert!(!rec.id.is_empty());
        assert!(!rec.description.is_empty());
        assert!(!rec.implementation_steps.is_empty());
        assert!(rec.priority >= 1 && rec.priority <= 5);
    }
}

// Scoring scenarios

#[test]
fn clean_description_scores_full_marks() {
    let enforcer = BestPracticesEnforcer::new();
    let result = enforcer.validate_architecture("Event driven service with retries", None, None);
    assert_eq!(result.compliance_score, 100);
    assert!(result.is_compliant);
    assert!(result.findings.is_empty());
    assert!(result.recommendations.is_empty());
}

#[test]
fn error_trigger_is_never_compliant() {
    let enforcer = BestPracticesEnforcer::new();
    let result = enforcer.validate_architecture("we may PANIC on bad input", None, None);
    assert_eq!(result.compliance_score, 80);
    assert!(!result.is_compliant);
    assert_eq!(result.findings[0].id, "arch_error_handling");
    assert_eq!(result.findings[0].severity, ValidationSeverity::Error);
}

#[test]
fn blocking_and_panic_description_scores_sixty() {
    let enforcer = BestPracticesEnforcer::new();
    let result = enforcer.validate_architecture(
        "Application with blocking operations and panic-based error handling",
        None,
        None,
    );
    assert_eq!(result.findings.len(), 2);
    assert_eq!(result.findings[0].rule_id, "async_patterns");
    assert_eq!(result.findings[1].rule_id, "error_handling");
    assert!(result.findings.iter().all(|f| f.severity == ValidationSeverity::Error));
    assert_eq!(result.compliance_score, 60);
    assert!(!result.is_compliant);
    assert_eq!(result.findings[0].location.as_deref(), Some("Architecture Description"));
    assert_eq!(
        result.findings[0].description,
        "Async Pattern Usage: Should use proper async patterns as recommended by ADK"
    );
    assert_eq!(result.recommendations.len(), 1);
    assert_eq!(result.recommendations[0].id, "rec_1");
    assert_eq!(result.recommendations[0].category, "Critical Issues");
    assert_eq!(
        result.recommendations[0].description,
        "Address 2 critical architecture issues that prevent ADK compliance"
    );
    assert_eq!(
        result.recommendations[0].documentation_ref,
        "https://google.github.io/adk-docs/best-practices/?version=1.0.0"
    );
}

#[test]
fn panic_and_unwrap_snippets_score_seventy_seven() {
    let enforcer = BestPracticesEnforcer::new();
    let snippets = vec!["fn main() { panic!(\"x\"); }".to_string(), "let r = op().unwrap();".to_string()];
    let result = enforcer.validate_architecture("Plain service", Some(&snippets), None);
    assert_eq!(result.findings.len(), 2);
    assert_eq!(result.findings[0].id, "code_0_panic_usage");
    assert_eq!(result.findings[0].location.as_deref(), Some("Code Snippet 1"));
    assert_eq!(result.findings[1].id, "code_1_unwrap_usage");
    assert_eq!(result.findings[1].location.as_deref(), Some("Code Snippet 2"));
    assert_eq!(
        result.findings[1].suggested_fix.as_deref(),
        Some("Consider using: proper error handling with ? operator or match")
    );
    assert_eq!(result.compliance_score, 77);
    assert!(!result.is_compliant);
    assert_eq!(result.recommendations.len(), 2);
    assert_eq!(result.recommendations[0].id, "rec_1");
    assert_eq!(result.recommendations[1].id, "rec_2");
    assert_eq!(result.recommendations[1].priority, 2);
    assert_eq!(
        result.recommendations[1].description,
        "Consider addressing 1 warning-level improvements for better ADK alignment"
    );
}

#[test]
fn warnings_alone_give_only_an_improvement_recommendation() {
    let enforcer = BestPracticesEnforcer::new();
    let result = enforcer.validate_architecture("A Non-Standard layout", None, None);
    assert_eq!(result.compliance_score, 90);
    assert!(result.is_compliant);
    assert_eq!(result.recommendations.len(), 1);
    assert_eq!(result.recommendations[0].id, "rec_1");
    assert_eq!(result.recommendations[0].category, "Improvements");
}

#[test]
fn info_finding_costs_three_and_gives_no_recommendation() {
    let enforcer = BestPracticesEnforcer::new();
    let snippets = vec!["todo!()".to_string()];
    let result = enforcer.validate_architecture("service", Some(&snippets), None);
    assert_eq!(result.compliance_score, 97);
    assert!(result.is_compliant);
    assert!(result.recommendations.is_empty());
}

#[test]
fn score_floors_at_zero() {
    let enforcer = BestPracticesEnforcer::new();
    let snippet = "panic!(); x.unwrap(); todo!();".to_string();
    let snippets = vec![snippet; 8];
    let result = enforcer.validate_architecture(
        "non-standard blocking operations with panic",
        Some(&snippets),
        None,
    );
    assert_eq!(result.findings.len(), 3 + 24);
    assert_eq!(result.compliance_score, 0);
    assert!(!result.is_compliant);
}

#[test]
fn more_findings_never_raise_the_score() {
    let enforcer = BestPracticesEnforcer::new();
    let mut snippets: Vec<String> = Vec::new();
    let mut last = enforcer.validate_architecture("non-standard", Some(&snippets), None).compliance_score;
    for _ in 0..10 {
        snippets.push("x.unwrap()".to_string());
        let score = enforcer.validate_architecture("non-standard", Some(&snippets), None).compliance_score;
        assert!(score <= last);
        last = score;
    }
    assert_eq!(last, 10);
}

#[test]
fn validation_is_deterministic() {
    let enforcer = BestPracticesEnforcer::new();
    let snippets = vec!["panic!()".to_string()];
    let a = enforcer.validate_architecture("blocking operations", Some(&snippets), Some("stable"));
    let b = enforcer.validate_architecture("blocking operations", Some(&snippets), Some("stable"));
    assert_eq!(format!("{:?}", a), format!("{:?}", b));
}

#[test]
fn unknown_version_falls_back_for_references() {
    let enforcer = BestPracticesEnforcer::new();
    let result = enforcer.validate_architecture("service", None, Some("9.9.9"));
    assert_eq!(
        result.documentation_refs,
        vec![
            "https://google.github.io/adk-docs/get-started/quickstart/".to_string(),
            "https://google.github.io/adk-docs/best-practices/".to_string(),
        ]
    );
}

#[test]
fn version_without_bundle_yields_quickstart_only() {
    let mut kb = AdkKnowledgeBase::new();
    kb.version_docs.clear();
    let enforcer = BestPracticesEnforcer::with_knowledge_base(kb);
    let result = enforcer.validate_architecture("service", None, None);
    assert_eq!(
        result.documentation_refs,
        vec!["https://google.github.io/adk-docs/get-started/quickstart/".to_string()]
    );
    let practices = enforcer.get_best_practices("service", None, None);
    assert_eq!(practices.documentation_refs.len(), 1);
    assert!(practices.practices.is_empty());
}

#[test]
fn category_selects_practices_exactly() {
    let enforcer = BestPracticesEnforcer::new();
    let result = enforcer.get_best_practices("anything", Some("architecture"), None);
    assert_eq!(result.practices.len(), 1);
    assert_eq!(result.practices[0].category, "architecture");
    let none = enforcer.get_best_practices("anything", Some("arch"), None);
    assert!(none.practices.is_empty());
}

#[test]
fn scenario_matches_practices_and_patterns() {
    let enforcer = BestPracticesEnforcer::new();
    let result = enforcer.get_best_practices("VERSION", None, None);
    assert_eq!(result.practices.len(), 1);
    assert_eq!(result.practices[0].title, "Version-Aware Development");
    let patterns = enforcer.get_best_practices("project initialization", None, None);
    assert_eq!(patterns.patterns.len(), 1);
    assert_eq!(patterns.patterns[0].name, "Basic ADK Setup");
    assert_eq!(
        patterns.documentation_refs,
        vec![
            "https://google.github.io/adk-docs/get-started/quickstart/".to_string(),
            "https://google.github.io/adk-docs/best-practices/".to_string(),
            "https://google.github.io/adk-docs/tutorials/".to_string(),
        ]
    );
}
