use arkaft_mcp_google_adk::review::analyzer::{
    analyze_adk_compliance, analyze_architectural_patterns, analyze_file_organization,
    analyze_translation_opportunities, ItemFacts, ItemShape, RustCodeAnalyzer,
};
use arkaft_mcp_google_adk::review::suggestions::format_review_suggestions;
use arkaft_mcp_google_adk::review::{
    ArchitecturalImprovement, CodeReviewEngine, ComplianceIssue, OrganizationSuggestion,
    ReviewResult, TranslationOpportunity,
};


fn parse(content: &str) -> Option<Vec<ItemFacts>> {
    let public = |v: &syn::Visibility| matches!(v, syn::Visibility::Public(_));
    let file = syn::parse_str::<syn::File>(content).ok()?;
    Some(
        file.items
            .iter()
            .map(|item| match item {
                syn::Item::Fn(f) => ItemFacts::function(
                    f.sig.asyncness.is_some(),
                    public(&f.vis),
                    quote::ToTokens::to_token_stream(&f.sig.output).to_string(),
                ),
                syn::Item::Struct(s) => ItemFacts::other(ItemShape::Struct { is_public: public(&s.vis) }),
                syn::Item::Enum(_) => ItemFacts::other(ItemShape::Enum),
                syn::Item::Impl(_) => ItemFacts::other(ItemShape::Impl),
                _ => ItemFacts::other(ItemShape::Other),
            })
            .collect(),
    )
}

#[test]
fn test_code_review_engine_creation() {
    let engine = CodeReviewEngine::new();
    assert!(engine.config.detect_translations);
    assert!(engine.config.check_architecture);
    assert!(engine.config.validate_adk_compliance);
}

#[test]
fn test_review_valid_rust_file() {
    let engine = CodeReviewEngine::new();
    let file_content = r#"
        use anyhow::Result;

        /// A well-documented function
        pub async fn hello_world() -> Result<String> {
            Ok("Hello, World!".to_string())
        }

        /// Another function with proper error handling
        pub async fn process_data(input: &str) -> Result<String> {
            if input.is_empty() {
                return Err(anyhow::anyhow!("Input cannot be empty"));
            }
            Ok(format!("Processed: {}", input))
        }
    "#;
    let review_result = engine.review_file("test.rs", file_content, parse(file_content));
    assert!(review_result.translation_opportunities.is_empty());
}

#[test]
fn test_review_file_with_unwrap() {
    let engine = CodeReviewEngine::new();
    let file_content = r#"
        pub fn risky_function() {
            let value = Some(42);
            let result = value.unwrap();
            println!("{}", result);
        }
    "#;
    let review_result = engine.review_file("risky.rs", file_content, parse(file_content));
    assert!(!review_result.translation_opportunities.is_empty());
    let unwrap_opportunity = &review_result.translation_opportunities[0];
    assert!(unwrap_opportunity.description.contains("unwrap"));
    assert!(unwrap_opportunity.suggestion.contains("error handling"));
}

#[test]
fn test_review_file_with_panic() {
    let engine = CodeReviewEngine::new();
    let file_content = r#"
        pub fn panic_function() {
            panic!("This should not happen");
        }
    "#;
    let review_result = engine.review_file("panic.rs", file_content, parse(file_content));
    assert!(!review_result.translation_opportunities.is_empty());
    assert!(!review_result.compliance_issues.is_empty());
    let panic_issue = &review_result.compliance_issues[0];
    assert!(panic_issue.description.contains("panic"));
}

#[test]
fn test_analyze_translation_opportunities() {
    let code_with_unwrap = r#"
        fn main() {
            let x = Some(5);
            let y = x.unwrap();
        }
    "#;
    let opportunities = analyze_translation_opportunities(code_with_unwrap, parse(code_with_unwrap));
    assert!(!opportunities.is_empty());
    assert!(opportunities[0].description.contains("unwrap"));
}

#[test]
fn test_analyze_architectural_patterns() {
    let code_without_results = r#"
        fn process_data() {
            println!("Processing...");
        }

        fn handle_request() {
            println!("Handling...");
        }
    "#;
    let improvements = analyze_architectural_patterns(code_without_results, parse(code_without_results));
    assert!(!improvements.is_empty());
    let error_handling_improvement = improvements.iter().find(|imp| imp.area.contains("Error Handling"));
    assert!(error_handling_improvement.is_some());
}

#[test]
fn test_analyze_adk_compliance() {
    let code_with_issues = r#"
        fn bad_function() {
            panic!("Error occurred");
            let x = Some(5).unwrap();
            todo!("Implement this");
        }
    "#;
    let issues = analyze_adk_compliance(code_with_issues, parse(code_with_issues));
    assert!(!issues.is_empty());
    let has_panic_issue = issues.iter().any(|issue| issue.description.contains("panic"));
    let has_todo_issue = issues.iter().any(|issue| issue.description.contains("incomplete"));
    assert!(has_panic_issue);
    assert!(has_todo_issue);
}

#[test]
fn test_analyze_file_organization() {
    let large_file_content =
        (0..600).map(|i| format!("fn function_{}() {{}}", i)).collect::<Vec<_>>().join("\n");
    let suggestions = analyze_file_organization("large_file.rs", &large_file_content, parse(&large_file_content));
    assert!(!suggestions.is_empty());
    let size_suggestion = suggestions.iter().find(|s| s.suggestion_type.contains("File Size"));
    assert!(size_suggestion.is_some());
}

#[test]
fn test_syntax_error_handling() {
    let invalid_rust_code = r#"
        fn invalid_syntax( {
            let x = 
        }
    "#;
    let opportunities = analyze_translation_opportunities(invalid_rust_code, parse(invalid_rust_code));
    assert!(!opportunities.is_empty());
    assert!(opportunities[0].description.contains("Syntax errors"));
}

#[test]
fn test_async_pattern_detection() {
    let sync_io_code = r#"
        use std::fs::File;

        fn read_file() {
            let file = File::open("test.txt");
        }
    "#;
    let opportunities = analyze_translation_opportunities(sync_io_code, parse(sync_io_code));
    let async_opportunity = opportunities.iter().find(|opp| opp.description.contains("Synchronous I/O"));
    assert!(async_opportunity.is_some());
    assert!(async_opportunity.unwrap().suggestion.contains("async"));
}

#[test]
fn test_clean_code_no_issues() {
    let clean_code = r#"
        use anyhow::Result;

        /// A well-documented function
        pub async fn process_data(input: &str) -> Result<String> {
            if input.is_empty() {
                return Err(anyhow::anyhow!("Input cannot be empty"));
            }
            Ok(format!("Processed: {}", input))
        }

        /// Another async function
        pub async fn handle_request() -> Result<()> {
            Ok(())
        }
    "#;
    let opportunities = analyze_translation_opportunities(clean_code, parse(clean_code));
    let improvements = analyze_architectural_patterns(clean_code, parse(clean_code));
    let issues = analyze_adk_compliance(clean_code, parse(clean_code));
    for issue in &issues {
        println!("Issue: {} - {}", issue.issue_type, issue.description);
    }
    assert!(opportunities.is_empty());
    assert!(improvements.len() <= 2);
    assert!(issues.len() <= 1);
}

fn sample_result() -> ReviewResult {
    ReviewResult {
        translation_opportunities: vec![TranslationOpportunity {
            line: 5,
            description: "Test opportunity".to_string(),
            suggestion: "Test suggestion".to_string(),
        }],
        architectural_improvements: vec![ArchitecturalImprovement {
            area: "Test Area".to_string(),
            current_pattern: "Current".to_string(),
            recommended_pattern: "Recommended".to_string(),
            rationale: "Test rationale".to_string(),
        }],
        compliance_issues: vec![ComplianceIssue {
            issue_type: "Test Issue".to_string(),
            description: "Test description".to_string(),
            fix_suggestion: "Test fix".to_string(),
        }],
        organization_suggestions: vec![OrganizationSuggestion {
            suggestion_type: "Test Organization".to_string(),
            description: "Test org description".to_string(),
            action: "Test action".to_string(),
        }],
    }
}

#[test]
fn test_format_review_suggestions() {
    let formatted = format_review_suggestions(&sample_result());
    assert!(formatted.contains("# Rust File Review Results"));
    assert!(formatted.contains("Translation Opportunities"));
    assert!(formatted.contains("Architectural Improvements"));
    assert!(formatted.contains("ADK Compliance Issues"));
    assert!(formatted.contains("File Organization Suggestions"));
    assert!(formatted.contains("Test opportunity"));
    assert!(formatted.contains("Test suggestion"));
}

#[test]
fn review_text_is_exact() {
    let formatted = format_review_suggestions(&sample_result());
    let expected = "# Rust File Review Results\n\n\
## Translation Opportunities\n\n**Line 5**: Test opportunity\n*Suggestion*: Test suggestion\n\n\
## Architectural Improvements\n\n**Test Area**\n*Current*: Current\n*Recommended*: Recommended\n*Rationale*: Test rationale\n\n\
## ADK Compliance Issues\n\n**Test Issue**: Test description\n*Fix*: Test fix\n\n\
## File Organization Suggestions\n\n**Test Organization**: Test org description\n*Action*: Test action\n\n";
    assert_eq!(formatted, expected);
}

#[test]
fn empty_review_says_no_issues() {
    let empty = ReviewResult {
        translation_opportunities: vec![],
        architectural_improvements: vec![],
        compliance_issues: vec![],
        organization_suggestions: vec![],
    };
    assert_eq!(
        format_review_suggestions(&empty),
        "# Rust File Review Results\n\nNo issues found. The code appears to follow good practices.\n"
    );
}

#[test]
fn line_numbers_are_one_based_and_ascending() {
    let code = "fn a() {\n    let x = y.unwrap();\n    panic!(\"no\");\n    let z = w.unwrap();\n    unimplemented!()\n}\n";
    let analyzer = RustCodeAnalyzer::new(code, parse(code));
    assert!(analyzer.has_valid_syntax());
    let patterns = analyzer.analyze_patterns();
    assert_eq!(patterns.unwrap_usage, vec![2, 4]);
    assert_eq!(patterns.panic_usage, vec![3]);
    assert_eq!(patterns.todo_usage, vec![5]);
    assert_eq!(patterns.function_count, 1);
    assert_eq!(patterns.public_functions, 0);
    let opportunities = analyze_translation_opportunities(code, parse(code));
    let lines: Vec<usize> = opportunities.iter().map(|o| o.line).collect();
    assert_eq!(lines, vec![2, 4, 3, 5]);
}

#[test]
fn lines_split_like_str_lines() {
    let analyzer = RustCodeAnalyzer::new("a\r\nb\n\nc\n", parse("a\r\nb\n\nc\n"));
    assert_eq!(analyzer.lines().clone(), vec!["a".to_string(), "b".to_string(), String::new(), "c".to_string()]);
    assert!(!analyzer.has_valid_syntax());
}

#[test]
fn item_counts_follow_the_parse() {
    let code = "pub struct A;\nstruct B;\nenum C { X }\nimpl A {}\npub async fn f() -> Result<(), ()> { Ok(()) }\nfn g() {}\n";
    let analyzer = RustCodeAnalyzer::new(code, parse(code));
    let p = analyzer.analyze_patterns();
    assert_eq!(p.function_count, 2);
    assert_eq!(p.async_functions, 1);
    assert_eq!(p.public_functions, 1);
    assert_eq!(p.struct_count, 2);
    assert_eq!(p.enum_count, 1);
    assert_eq!(p.impl_count, 1);
    assert_eq!(analyzer.extract_functions().len(), 2);
    assert_eq!(analyzer.extract_structs().len(), 2);
    assert_eq!(analyzer.extract_enums().len(), 1);
    assert_eq!(analyzer.extract_impls().len(), 1);
}

#[test]
fn compliance_counts_panics_and_excess_unwraps() {
    let code = "fn f() {\n a.unwrap();\n b.unwrap();\n c.unwrap();\n panic!();\n}\n";
    let issues = analyze_adk_compliance(code, parse(code));
    assert_eq!(issues.len(), 2);
    assert_eq!(issues[0].description, "Found 1 panic! usage(s) which violate ADK error handling guidelines");
    assert_eq!(issues[1].description, "Excessive unwrap() usage (3 instances) may indicate poor error handling");
}

#[test]
fn syntax_error_gives_single_compliance_issue() {
    let issues = analyze_adk_compliance("fn (", parse("fn ("));
    assert_eq!(issues.len(), 1);
    assert_eq!(issues[0].issue_type, "Syntax Error");
    assert!(analyze_architectural_patterns("fn (", parse("fn (")).is_empty());
}

#[test]
fn public_items_need_documentation() {
    let issues = analyze_adk_compliance("pub struct S;\n", parse("pub struct S;\n"));
    assert_eq!(issues.len(), 1);
    assert_eq!(issues[0].issue_type, "Documentation Compliance");
}

#[test]
fn api_design_and_structs_without_impls() {
    let code = "pub fn a() -> Result<(), ()> { Ok(()) }\nstruct A;\nstruct B;\nstruct C;\nstruct D;\n";
    let improvements = analyze_architectural_patterns(code, parse(code));
    let areas: Vec<&str> = improvements.iter().map(|i| i.area.as_str()).collect();
    assert!(areas.ends_with(&["Code Organization", "API Design"]));
}

#[test]
fn file_naming_and_module_organization() {
    let code = "struct A; struct B; struct C; enum D {} enum E {} enum F {}";
    let s = analyze_file_organization("src/my_types.rs", code, parse(code));
    let kinds: Vec<&str> = s.iter().map(|x| x.suggestion_type.as_str()).collect();
    assert_eq!(kinds, vec!["Module Organization", "Naming Convention"]);
    let in_mod = analyze_file_organization("src/types/mod.rs", code, parse(code));
    assert!(in_mod.is_empty());
    let test_file = analyze_file_organization("parser_test.rs", "", parse(""));
    assert!(test_file.is_empty());
}

#[test]
fn many_imports_in_the_head_of_the_file() {
    let code = (0..11).map(|i| format!("  use m{}::X;", i)).collect::<Vec<_>>().join("\n");
    let s = analyze_file_organization("lib.rs", &code, parse(&code));
    assert_eq!(s.len(), 1);
    assert_eq!(s[0].suggestion_type, "Import Organization");
    let ten = (0..10).map(|i| format!("use m{}::X;", i)).collect::<Vec<_>>().join("\n");
    assert!(analyze_file_organization("lib.rs", &ten, parse(&ten)).is_empty());
}

#[test]
fn large_file_reports_its_line_count() {
    let content = (0..501).map(|_| "// c").collect::<Vec<_>>().join("\n");
    let s = analyze_file_organization("big.rs", &content, parse(&content));
    assert_eq!(s[0].description, "File is quite large (501 lines) which may impact maintainability");
}

#[test]
fn result_return_types_are_recognised() {
    let code = "fn f() -> Result<(), String> { Ok(()) }\nfn g() -> Option<u8> { None }\n";
    let analyzer = RustCodeAnalyzer::new(code, parse(code));
    let p = analyzer.analyze_patterns();
    assert_eq!(p.function_count, 2);
    assert_eq!(p.result_returning_functions, 1);
    let improvements = analyze_architectural_patterns(code, parse(code));
    assert!(improvements.iter().all(|i| i.area != "Error Handling Architecture"));
}

#[test]
fn deeply_nested_text_is_analysed_from_the_given_report() {
    let deep = format!("fn f() {{ let x = {}1{}; }}\nlet y = z.unwrap();\n", "(".repeat(5000), ")".repeat(5000));
    let opportunities = analyze_translation_opportunities(&deep, None);
    assert_eq!(opportunities.len(), 1);
    assert!(opportunities[0].description.contains("Syntax errors"));
    let facts = vec![ItemFacts::function(false, false, String::new())];
    let lines = analyze_translation_opportunities(&deep, Some(facts));
    assert_eq!(lines.len(), 1);
    assert_eq!(lines[0].line, 2);
    assert!(lines[0].description.contains("unwrap"));
}
