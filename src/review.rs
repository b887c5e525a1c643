//! Review of Rust source files: translation opportunities, architecture,
//! compliance and organization findings.
use vstd::prelude::*;

pub mod analyzer;
pub mod suggestions;

use crate::review::analyzer::{
    architecture_spec, compliance_spec, organization_spec, translation_spec, ItemFacts,
    RustCodeAnalyzer,
};

verus! {

/// What a review looks at.
#[derive(Clone)]
pub struct ReviewConfig {
    /// Look for translation opportunities
    pub detect_translations: bool,
    /// Check architectural patterns
    pub check_architecture: bool,
    /// Check compliance with the guidelines
    pub validate_adk_compliance: bool,
}

/// Reviews Rust files.
pub struct CodeReviewEngine {
    pub config: ReviewConfig,
}

/// The findings of one review.
#[derive(Debug)]
pub struct ReviewResult {
    pub translation_opportunities: Vec<TranslationOpportunity>,
    pub architectural_improvements: Vec<ArchitecturalImprovement>,
    pub compliance_issues: Vec<ComplianceIssue>,
    pub organization_suggestions: Vec<OrganizationSuggestion>,
}

/// Code at a line that could be written better.
#[derive(Debug)]
pub struct TranslationOpportunity {
    /// Line number, from 1
    pub line: usize,
    pub description: String,
    pub suggestion: String,
}

/// A suggested architectural change.
#[derive(Debug)]
pub struct ArchitecturalImprovement {
    pub area: String,
    pub current_pattern: String,
    pub recommended_pattern: String,
    pub rationale: String,
}

/// A departure from the guidelines.
#[derive(Debug)]
pub struct ComplianceIssue {
    pub issue_type: String,
    pub description: String,
    pub fix_suggestion: String,
}

/// A suggested change to the file's organization.
#[derive(Debug)]
pub struct OrganizationSuggestion {
    pub suggestion_type: String,
    pub description: String,
    pub action: String,
}

impl View for TranslationOpportunity {
    type V = (usize, Seq<char>, Seq<char>);

    open spec fn view(&self) -> (usize, Seq<char>, Seq<char>) {
        (self.line, self.description@, self.suggestion@)
    }
}

impl View for ArchitecturalImprovement {
    type V = (Seq<char>, Seq<char>, Seq<char>, Seq<char>);

    open spec fn view(&self) -> (Seq<char>, Seq<char>, Seq<char>, Seq<char>) {
        (self.area@, self.current_pattern@, self.recommended_pattern@, self.rationale@)
    }
}

impl View for ComplianceIssue {
    type V = (Seq<char>, Seq<char>, Seq<char>);

    open spec fn view(&self) -> (Seq<char>, Seq<char>, Seq<char>) {
        (self.issue_type@, self.description@, self.fix_suggestion@)
    }
}

impl View for OrganizationSuggestion {
    type V = (Seq<char>, Seq<char>, Seq<char>);

    open spec fn view(&self) -> (Seq<char>, Seq<char>, Seq<char>) {
        (self.suggestion_type@, self.description@, self.action@)
    }
}

pub open spec fn seq_view<T: View>(s: Seq<T>) -> Seq<T::V> {
    s.map_values(|x: T| x@)
}

impl CodeReviewEngine {
    /// An engine with every check enabled.
    pub fn new() -> (r: Self)
        ensures
            r.config.detect_translations,
            r.config.check_architecture,
            r.config.validate_adk_compliance,
    {
        CodeReviewEngine {
            config: ReviewConfig {
                detect_translations: true,
                check_architecture: true,
                validate_adk_compliance: true,
            },
        }
    }

    /// Reviews one file, given the parser's report on its content: each
    /// enabled check, and the organization check always.
    pub fn review_file(
        &self,
        file_path: &str,
        file_content: &str,
        parsed: Option<Vec<ItemFacts>>,
    ) -> (r: ReviewResult)
        ensures
            exists|a: RustCodeAnalyzer|
                a.describes(file_content@, parsed) && seq_view(r.translation_opportunities@) == (if self.config.detect_translations {
                    translation_spec(a)
                } else {
                    seq![]
                }) && seq_view(r.architectural_improvements@) == (if self.config.check_architecture {
                    architecture_spec(a)
                } else {
                    seq![]
                }) && seq_view(r.compliance_issues@) == (if self.config.validate_adk_compliance {
                    compliance_spec(a)
                } else {
                    seq![]
                }) && seq_view(r.organization_suggestions@) == organization_spec(a, file_path@),
    {
        let analyzer = RustCodeAnalyzer::new(file_content, parsed);
        let translation_opportunities = if self.config.detect_translations {
            analyzer.translation_opportunities()
        } else {
            Vec::new()
        };
        let architectural_improvements = if self.config.check_architecture {
            analyzer.architectural_improvements()
        } else {
            Vec::new()
        };
        let compliance_issues = if self.config.validate_adk_compliance {
            analyzer.compliance_issues()
        } else {
            Vec::new()
        };
        let organization_suggestions = analyzer.organization_suggestions(file_path);
        let r = ReviewResult {
            translation_opportunities,
            architectural_improvements,
            compliance_issues,
            organization_suggestions,
        };
        assert(seq_view(Seq::<TranslationOpportunity>::empty()) =~= seq![]);
        assert(seq_view(Seq::<ArchitecturalImprovement>::empty()) =~= seq![]);
        assert(seq_view(Seq::<ComplianceIssue>::empty()) =~= seq![]);
        r
    }
}

} // verus!
