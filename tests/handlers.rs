use arkaft_mcp_google_adk::expert::best_practices::BestPracticesEnforcer;
use arkaft_mcp_google_adk::review::analyzer::{ItemFacts, ItemShape};
use arkaft_mcp_google_adk::server::handlers::{
    format_architecture_validation_result, format_best_practices_result, handle_adk_query,
    handle_get_best_practices, handle_review_rust_file, handle_validate_architecture,
    AdkQueryParams, GetBestPracticesParams, ReviewRustFileParams, ValidateArchitectureParams,
};
use arkaft_mcp_google_adk::utils::error::ArkaftMcpError;


fn parse(content: &str) -> Option<Vec<ItemFacts>> {
    let public = |v: &syn::Visibility| matches!(v, syn::Visibility::Public(_));
    let file = syn::parse_str::<syn::File>(content).ok()?;
    Some(
        file.items
            .iter()
            .map(|item| match item {
                syn::Item::Fn(f) => ItemFacts::function(
                    f.sig.asyncness.is_some(),
                    public(&f.vis),
                    quote::ToTokens::to_token_stream(&f.sig.output).to_string(),
                ),
                syn::Item::Struct(s) => ItemFacts::other(ItemShape::Struct { is_public: public(&s.vis) }),
                syn::Item::Enum(_) => ItemFacts::other(ItemShape::Enum),
                syn::Item::Impl(_) => ItemFacts::other(ItemShape::Impl),
                _ => ItemFacts::other(ItemShape::Other),
            })
            .collect(),
    )
}

fn parameter_message(r: Result<String, ArkaftMcpError>) -> String {
    match r {
        Err(ArkaftMcpError::ParameterValidation(m)) => m,
        other => panic!("expected a parameter error, got {:?}", other),
    }
}

#[test]
fn test_adk_query_empty_query() {
    let r = handle_adk_query(&AdkQueryParams { query: String::new(), version: None });
    assert!(parameter_message(r).contains("empty"));
}

#[test]
fn test_adk_query_whitespace_only_query() {
    let r = handle_adk_query(&AdkQueryParams { query: "   \t\n   ".to_string(), version: None });
    assert!(parameter_message(r).contains("empty"));
}

#[test]
fn test_adk_query_valid_parameters() {
    let r = handle_adk_query(&AdkQueryParams { query: "What is Google ADK?".to_string(), version: None });
    let text = r.unwrap();
    assert!(!text.is_empty());
    assert!(text.contains("Google ADK"));
}

#[test]
fn test_adk_query_version_specific_information() {
    let latest = handle_adk_query(&AdkQueryParams {
        query: "ADK features".to_string(),
        version: Some("latest".to_string()),
    })
    .unwrap();
    let pinned = handle_adk_query(&AdkQueryParams {
        query: "ADK features".to_string(),
        version: Some("1.0.0".to_string()),
    })
    .unwrap();
    assert!(latest.contains("1.0.0"));
    assert_eq!(latest, pinned);
}

#[test]
fn test_adk_query_official_documentation_references() {
    let text = handle_adk_query(&AdkQueryParams { query: "ADK quickstart guide".to_string(), version: None })
        .unwrap();
    assert!(text.contains("google.github.io/adk-docs"));
    assert!(text.contains("Official References"));
    assert!(text.contains("quickstart"));
}

#[test]
fn test_review_rust_file_handler_empty_file_path() {
    let r = handle_review_rust_file(
        &ReviewRustFileParams { file_path: String::new(), file_content: "fn main() {}".to_string(), },
        parse("fn main() {}"),
    );
    assert_eq!(parameter_message(r), "file_path parameter cannot be empty");
}

#[test]
fn test_review_rust_file_handler_empty_content() {
    let r = handle_review_rust_file(
        &ReviewRustFileParams { file_path: "empty.rs".to_string(), file_content: String::new(), },
        parse(""),
    );
    assert_eq!(parameter_message(r), "file_content parameter cannot be empty");
}

#[test]
fn test_review_rust_file_handler_non_rust_file() {
    let r = handle_review_rust_file(
        &ReviewRustFileParams { file_path: "test.py".to_string(), file_content: "print('hello')".to_string(), },
        parse("print('hello')"),
    );
    assert_eq!(parameter_message(r), "Only .rs files can be reviewed. Provided file: test.py");
}

#[test]
fn test_review_rust_file_handler_valid_input() {
    let text = handle_review_rust_file(
        &ReviewRustFileParams { file_path: "test.rs".to_string(), file_content: "fn main() { println!(\"Hello, world!\"); }".to_string(), },
        parse("fn main() { println!(\"Hello, world!\"); }"),
    )
    .unwrap();
    assert!(text.contains("Rust File Review Results"));
}

#[test]
fn test_review_rust_file_handler_with_issues() {
    let text = handle_review_rust_file(
        &ReviewRustFileParams { file_path: "problematic.rs".to_string(), file_content: "fn main() {\n    let x = Some(1).unwrap();\n    panic!(\"boom\");\n}\n".to_string(), },
        parse("fn main() {\n    let x = Some(1).unwrap();\n    panic!(\"boom\");\n}\n"),
    )
    .unwrap();
    assert!(text.contains("Translation Opportunities"));
    assert!(text.contains("ADK Compliance Issues"));
    assert!(text.contains("**Line 2**: Direct unwrap() usage detected"));
}

#[test]
fn test_validate_architecture_empty_description() {
    let r = handle_validate_architecture(&ValidateArchitectureParams {
        description: String::new(),
        code_snippets: None,
        version: None,
    });
    assert!(parameter_message(r).contains("empty"));
}

#[test]
fn test_validate_architecture_whitespace_description() {
    let r = handle_validate_architecture(&ValidateArchitectureParams {
        description: "   \t\n   ".to_string(),
        code_snippets: None,
        version: None,
    });
    assert_eq!(parameter_message(r), "Description parameter cannot be empty");
}

#[test]
fn test_validate_architecture_compliance_scoring() {
    let text = handle_validate_architecture(&ValidateArchitectureParams {
        description: "Well-designed ADK application with proper async patterns and error handling"
            .to_string(),
        code_snippets: None,
        version: None,
    })
    .unwrap();
    assert!(text.contains("Compliance"));
    assert!(text.contains("Score"));
    assert!(text.contains("✅ COMPLIANT"));
    assert!(text.contains("**Compliance Score:** 100/100"));
}

#[test]
fn test_validate_architecture_findings_and_recommendations() {
    let text = handle_validate_architecture(&ValidateArchitectureParams {
        description: "Architecture with blocking operations and panic-based error handling".to_string(),
        code_snippets: Some(vec![
            "panic!(\"This will crash\")".to_string(),
            "std::thread::sleep(Duration::from_secs(10))".to_string(),
        ]),
        version: None,
    })
    .unwrap();
    assert!(text.contains("Finding"));
    assert!(text.contains("Recommendation"));
    assert!(text.contains("Suggested Fix"));
    assert!(text.contains("🔴"));
    assert!(text.contains("❌ NON-COMPLIANT"));
    assert!(text.contains("**Compliance Score:** 45/100"));
}

#[test]
fn test_validate_architecture_official_documentation_refs() {
    let text = handle_validate_architecture(&ValidateArchitectureParams {
        description: "Standard microservices architecture".to_string(),
        code_snippets: None,
        version: None,
    })
    .unwrap();
    assert!(text.contains("google.github.io/adk-docs"));
    assert!(text.contains("Official Documentation"));
    assert!(text.contains("Reference"));
}

#[test]
fn test_get_best_practices_empty_scenario() {
    let r = handle_get_best_practices(&GetBestPracticesParams {
        scenario: " ".to_string(),
        category: None,
        version: None,
    });
    assert_eq!(parameter_message(r), "Scenario parameter cannot be empty");
}

#[test]
fn test_get_best_practices_with_category() {
    let text = handle_get_best_practices(&GetBestPracticesParams {
        scenario: "web development".to_string(),
        category: Some("architecture".to_string()),
        version: None,
    })
    .unwrap();
    assert!(text.contains("Best Practices"));
    assert!(text.contains("**Category:** architecture"));
    assert!(!text.contains("**Category:** versioning"));
}

#[test]
fn tests_test_get_best_practices_with_version() {
    let text = handle_get_best_practices(&GetBestPracticesParams {
        scenario: "application setup".to_string(),
        category: None,
        version: Some("1.0.0".to_string()),
    })
    .unwrap();
    assert!(text.contains("Version"));
    assert!(text.contains("**Version:** 1.0.0"));
}

#[test]
fn test_get_best_practices_official_documentation() {
    let text = handle_get_best_practices(&GetBestPracticesParams {
        scenario: "ADK project setup".to_string(),
        category: None,
        version: None,
    })
    .unwrap();
    assert!(text.contains("google.github.io/adk-docs"));
    assert!(text.contains("Official Documentation"));
    assert!(text.contains("Reference"));
}

#[test]
fn validation_text_is_exact_for_a_clean_description() {
    let enforcer = BestPracticesEnforcer::new();
    let result = enforcer.validate_architecture("Plain service", None, None);
    let text = format_architecture_validation_result(&result);
    assert_eq!(
        text,
        "# Architecture Validation Result\n\n**Compliance Status:** ✅ COMPLIANT\n**Compliance Score:** 100/100\n\n## Official Documentation References\n\n- [https://google.github.io/adk-docs/get-started/quickstart/](https://google.github.io/adk-docs/get-started/quickstart/)\n- [https://google.github.io/adk-docs/best-practices/](https://google.github.io/adk-docs/best-practices/)\n\n---\n\n*This validation is based on official Google ADK best practices and architectural guidelines.*"
    );
}

#[test]
fn validation_text_lists_findings() {
    let enforcer = BestPracticesEnforcer::new();
    let snippets = vec!["todo!()".to_string()];
    let result = enforcer.validate_architecture("service", Some(&snippets), None);
    let text = format_architecture_validation_result(&result);
    assert!(text.contains("## Validation Findings\n\n### 🔵 Remove TODO markers: TODO markers indicate incomplete implementation\n\n**Location:** Code Snippet 1\n\n\n\n**Suggested Fix:** Consider using: complete implementation\n\n---\n\n"));
    assert!(text.contains("**Compliance Score:** 97/100"));
}

#[test]
fn practices_text_shows_patterns() {
    let enforcer = BestPracticesEnforcer::new();
    let result = enforcer.get_best_practices("ADK", None, None);
    let text = format_best_practices_result(&result);
    assert!(text.starts_with("# Google ADK Best Practices\n\n**Scenario:** ADK\n**Version:** 1.0.0\n\n## Best Practices\n\n"));
    assert!(text.contains("## Implementation Patterns\n\n### Basic ADK Setup\n\n"));
    assert!(text.contains("**Code Examples:**\n\n#### Basic Configuration\n\n```rust\n"));
    assert!(text.ends_with("*These best practices are based on official Google ADK documentation and guidelines.*"));
}
