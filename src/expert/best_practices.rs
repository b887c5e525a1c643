//! The rule catalog and the compliance-scoring engine: architecture rules
//! matched against a description, code-pattern rules matched against code
//! snippets, findings folded into a bounded score, and grouped
//! recommendations.
use vstd::prelude::*;
use crate::expert::adk_knowledge::{
    keys_unique, practices_in, views, AdkKnowledgeBase, BestPractice, CodeExample, ImplementationPattern,
};
use crate::text::{
    folded_contains, is_ascii_text, lemma_folded_extends, lemma_lowered_containment, str_opt, copy_strings, decimal, decimal_string, extend_strings, lower_of, lowercase, seq_contains,
};

verus! {

/// How serious a finding is.
#[derive(Clone, Copy, Debug, PartialEq, Eq, Structural)]
pub enum ValidationSeverity {
    /// Must be fixed
    Error,
    /// Should be addressed
    Warning,
    /// Suggestion
    Info,
}

/// A rule checked against an architecture description.
#[derive(Clone, Debug)]
pub struct ArchitectureRule {
    pub id: String,
    pub name: String,
    pub description: String,
    /// Category (architecture, performance, security, ...)
    pub category: String,
    pub severity: ValidationSeverity,
    /// Text whose presence (ignoring case) triggers the rule
    pub pattern: String,
    /// How to comply
    pub recommendation: String,
    pub documentation_ref: String,
}

/// A rule checked against code snippets.
#[derive(Clone, Debug)]
pub struct CodePatternRule {
    pub id: String,
    pub name: String,
    /// Text whose presence (case-sensitive) triggers the rule
    pub pattern: String,
    /// What to use instead
    pub expected_pattern: String,
    pub rationale: String,
    pub category: String,
    pub severity: ValidationSeverity,
}

/// An informational practice rule; never scored.
#[derive(Clone, Debug)]
pub struct BestPracticeRule {
    pub id: String,
    pub practice_id: String,
    pub validation_logic: String,
    pub success_criteria: Vec<String>,
    pub failure_indicators: Vec<String>,
    pub remediation_steps: Vec<String>,
}

/// The rule catalog.
#[derive(Clone, Debug)]
pub struct ValidationRules {
    pub architecture_rules: Vec<ArchitectureRule>,
    pub code_pattern_rules: Vec<CodePatternRule>,
    pub best_practice_rules: Vec<BestPracticeRule>,
}

/// A named architecture pattern.
#[derive(Clone, Debug)]
pub struct ArchitecturePattern {
    pub name: String,
    pub description: String,
    pub required_components: Vec<String>,
    pub optional_components: Vec<String>,
    pub anti_patterns: Vec<String>,
    pub validation_criteria: Vec<String>,
}

/// A named code pattern.
#[derive(Clone, Debug)]
pub struct CodePattern {
    pub name: String,
    pub pattern: String,
    pub context: String,
    pub compliance_indicators: Vec<String>,
    pub non_compliance_indicators: Vec<String>,
}

/// Architecture and code patterns, keyed by identifier.
#[derive(Clone, Debug)]
pub struct PatternMatcher {
    pub architecture_patterns: Vec<(String, ArchitecturePattern)>,
    pub code_patterns: Vec<(String, CodePattern)>,
}

/// One rule match against one input.
#[derive(Clone, Debug)]
pub struct ValidationFinding {
    pub id: String,
    /// The rule that matched
    pub rule_id: String,
    pub severity: ValidationSeverity,
    pub description: String,
    pub location: Option<String>,
    pub suggested_fix: Option<String>,
}

/// Grouped remediation guidance.
#[derive(Clone, Debug)]
pub struct Recommendation {
    pub id: String,
    pub category: String,
    /// 1 (highest) to 5
    pub priority: u8,
    pub description: String,
    pub implementation_steps: Vec<String>,
    pub benefits: Vec<String>,
    pub documentation_ref: String,
}

/// The outcome of one validation run.
#[derive(Clone, Debug)]
pub struct ArchitectureValidationResult {
    pub is_compliant: bool,
    /// 0 to 100
    pub compliance_score: u8,
    pub findings: Vec<ValidationFinding>,
    pub recommendations: Vec<Recommendation>,
    pub documentation_refs: Vec<String>,
}

/// Practices, patterns and references for a scenario.
#[derive(Clone, Debug)]
pub struct BestPracticesResult {
    pub scenario: String,
    pub practices: Vec<BestPractice>,
    pub patterns: Vec<ImplementationPattern>,
    pub documentation_refs: Vec<String>,
    pub version: String,
}

/// The rule engine over a knowledge base.
#[derive(Clone, Debug)]
pub struct BestPracticesEnforcer {
    pub knowledge_base: AdkKnowledgeBase,
    pub validation_rules: ValidationRules,
    pub pattern_matcher: PatternMatcher,
}

/// A finding, as text.
pub struct FindingView {
    pub id: Seq<char>,
    pub rule_id: Seq<char>,
    pub severity: ValidationSeverity,
    pub description: Seq<char>,
    pub location: Option<Seq<char>>,
    pub suggested_fix: Option<Seq<char>>,
}

pub open spec fn opt_view(o: Option<String>) -> Option<Seq<char>> {
    match o {
        Some(s) => Some(s@),
        None => None,
    }
}

impl View for ValidationFinding {
    type V = FindingView;

    open spec fn view(&self) -> FindingView {
        FindingView {
            id: self.id@,
            rule_id: self.rule_id@,
            severity: self.severity,
            description: self.description@,
            location: opt_view(self.location),
            suggested_fix: opt_view(self.suggested_fix),
        }
    }
}

/// A recommendation, as text.
pub struct RecommendationView {
    pub id: Seq<char>,
    pub category: Seq<char>,
    pub priority: u8,
    pub description: Seq<char>,
    pub implementation_steps: Seq<Seq<char>>,
    pub benefits: Seq<Seq<char>>,
    pub documentation_ref: Seq<char>,
}

impl View for Recommendation {
    type V = RecommendationView;

    open spec fn view(&self) -> RecommendationView {
        RecommendationView {
            id: self.id@,
            category: self.category@,
            priority: self.priority,
            description: self.description@,
            implementation_steps: views(self.implementation_steps@),
            benefits: views(self.benefits@),
            documentation_ref: self.documentation_ref@,
        }
    }
}

/// A validation outcome, as text.
pub struct ValidationView {
    pub is_compliant: bool,
    pub compliance_score: u8,
    pub findings: Seq<FindingView>,
    pub recommendations: Seq<RecommendationView>,
    pub documentation_refs: Seq<Seq<char>>,
}

pub open spec fn finding_views(fs: Seq<ValidationFinding>) -> Seq<FindingView> {
    fs.map_values(|f: ValidationFinding| f@)
}

pub open spec fn recommendation_views(rs: Seq<Recommendation>) -> Seq<RecommendationView> {
    rs.map_values(|r: Recommendation| r@)
}

impl View for ArchitectureValidationResult {
    type V = ValidationView;

    open spec fn view(&self) -> ValidationView {
        ValidationView {
            is_compliant: self.is_compliant,
            compliance_score: self.compliance_score,
            findings: finding_views(self.findings@),
            recommendations: recommendation_views(self.recommendations@),
            documentation_refs: views(self.documentation_refs@),
        }
    }
}

// ---------------------------------------------------------------------------
// Matching

/// An architecture rule fires when its pattern occurs in the description,
/// both lowercased.
pub open spec fn arch_rule_matches(rule: ArchitectureRule, description: Seq<char>) -> bool {
    seq_contains(lower_of(description), lower_of(rule.pattern@))
}

pub open spec fn arch_finding(rule: ArchitectureRule) -> FindingView {
    FindingView {
        id: "arch_"@ + rule.id@,
        rule_id: rule.id@,
        severity: rule.severity,
        description: rule.name@ + ": "@ + rule.description@,
        location: Some("Architecture Description"@),
        suggested_fix: Some(rule.recommendation@),
    }
}

/// One finding per matching architecture rule, in catalog order.
pub open spec fn arch_findings(rules: Seq<ArchitectureRule>, description: Seq<char>) -> Seq<
    FindingView,
>
    decreases rules.len(),
{
    if rules.len() == 0 {
        seq![]
    } else {
        let rest = arch_findings(rules.drop_last(), description);
        if arch_rule_matches(rules.last(), description) {
            rest.push(arch_finding(rules.last()))
        } else {
            rest
        }
    }
}

/// A code rule fires when its pattern occurs in the snippet, case-sensitively.
pub open spec fn code_rule_matches(rule: CodePatternRule, snippet: Seq<char>) -> bool {
    seq_contains(snippet, rule.pattern@)
}

pub open spec fn code_finding(rule: CodePatternRule, index: nat) -> FindingView {
    FindingView {
        id: "code_"@ + decimal(index) + "_"@ + rule.id@,
        rule_id: rule.id@,
        severity: rule.severity,
        description: rule.name@ + ": "@ + rule.rationale@,
        location: Some("Code Snippet "@ + decimal(index + 1)),
        suggested_fix: Some("Consider using: "@ + rule.expected_pattern@),
    }
}

/// The findings of one snippet (numbered `index` from 0), in catalog order.
pub open spec fn snippet_findings(
    rules: Seq<CodePatternRule>,
    snippet: Seq<char>,
    index: nat,
) -> Seq<FindingView>
    decreases rules.len(),
{
    if rules.len() == 0 {
        seq![]
    } else {
        let rest = snippet_findings(rules.drop_last(), snippet, index);
        if code_rule_matches(rules.last(), snippet) {
            rest.push(code_finding(rules.last(), index))
        } else {
            rest
        }
    }
}

/// The findings of all snippets, snippet by snippet.
pub open spec fn all_snippet_findings(rules: Seq<CodePatternRule>, snippets: Seq<Seq<char>>) -> Seq<
    FindingView,
>
    decreases snippets.len(),
{
    if snippets.len() == 0 {
        seq![]
    } else {
        all_snippet_findings(rules, snippets.drop_last()) + snippet_findings(
            rules,
            snippets.last(),
            (snippets.len() - 1) as nat,
        )
    }
}

// ---------------------------------------------------------------------------
// Scoring

/// Deduction for an architecture finding.
pub open spec fn arch_penalty(s: ValidationSeverity) -> nat {
    match s {
        ValidationSeverity::Error => 20,
        ValidationSeverity::Warning => 10,
        ValidationSeverity::Info => 5,
    }
}

/// Deduction for a snippet finding.
pub open spec fn code_penalty(s: ValidationSeverity) -> nat {
    match s {
        ValidationSeverity::Error => 15,
        ValidationSeverity::Warning => 8,
        ValidationSeverity::Info => 3,
    }
}

pub open spec fn arch_penalties(fs: Seq<FindingView>) -> Seq<nat> {
    fs.map_values(|f: FindingView| arch_penalty(f.severity))
}

pub open spec fn code_penalties(fs: Seq<FindingView>) -> Seq<nat> {
    fs.map_values(|f: FindingView| code_penalty(f.severity))
}

/// `start` less each deduction in turn, never below 0.
pub open spec fn score_after(start: nat, penalties: Seq<nat>) -> nat
    decreases penalties.len(),
{
    if penalties.len() == 0 {
        start
    } else {
        let s = score_after(start, penalties.drop_last());
        if s >= penalties.last() {
            (s - penalties.last()) as nat
        } else {
            0
        }
    }
}

pub open spec fn has_error(fs: Seq<FindingView>) -> bool {
    exists|i: int| 0 <= i < fs.len() && #[trigger] fs[i].severity == ValidationSeverity::Error
}

/// Number of findings of one severity.
pub open spec fn count_severity(fs: Seq<FindingView>, s: ValidationSeverity) -> nat
    decreases fs.len(),
{
    if fs.len() == 0 {
        0
    } else {
        count_severity(fs.drop_last(), s) + if fs.last().severity == s {
            1nat
        } else {
            0nat
        }
    }
}

// ---------------------------------------------------------------------------
// Recommendations

pub open spec fn best_practices_ref(version: Seq<char>) -> Seq<char> {
    "https://google.github.io/adk-docs/best-practices/?version="@ + version
}

pub open spec fn critical_recommendation(n: nat, version: Seq<char>) -> RecommendationView {
    RecommendationView {
        id: "rec_1"@,
        category: "Critical Issues"@,
        priority: 1,
        description: "Address "@ + decimal(n)
            + " critical architecture issues that prevent ADK compliance"@,
        implementation_steps: seq![
            "Review all error-level findings"@,
            "Implement suggested fixes for critical issues"@,
            "Validate changes against ADK guidelines"@,
        ],
        benefits: seq![
            "Ensures ADK compliance"@,
            "Prevents runtime issues"@,
            "Follows official best practices"@,
        ],
        documentation_ref: best_practices_ref(version),
    }
}

pub open spec fn improvement_recommendation(
    n: nat,
    version: Seq<char>,
    id: Seq<char>,
) -> RecommendationView {
    RecommendationView {
        id: id,
        category: "Improvements"@,
        priority: 2,
        description: "Consider addressing "@ + decimal(n)
            + " warning-level improvements for better ADK alignment"@,
        implementation_steps: seq![
            "Review warning-level findings"@,
            "Prioritize improvements based on impact"@,
            "Implement changes incrementally"@,
        ],
        benefits: seq![
            "Improves code quality"@,
            "Better alignment with ADK patterns"@,
            "Enhanced maintainability"@,
        ],
        documentation_ref: best_practices_ref(version),
    }
}

/// At most one recommendation for Error findings, then at most one for
/// Warning findings; Info findings never produce one.
pub open spec fn recommendations_for(fs: Seq<FindingView>, version: Seq<char>) -> Seq<
    RecommendationView,
> {
    let errors = count_severity(fs, ValidationSeverity::Error);
    let warnings = count_severity(fs, ValidationSeverity::Warning);
    let critical: Seq<RecommendationView> = if errors > 0 {
        seq![critical_recommendation(errors, version)]
    } else {
        seq![]
    };
    let improvements: Seq<RecommendationView> = if warnings > 0 {
        seq![
            improvement_recommendation(
                warnings,
                version,
                if errors > 0 {
                    "rec_2"@
                } else {
                    "rec_1"@
                },
            ),
        ]
    } else {
        seq![]
    };
    critical + improvements
}

// ---------------------------------------------------------------------------
// References

pub open spec fn quickstart_url() -> Seq<char> {
    "https://google.github.io/adk-docs/get-started/quickstart/"@
}

/// Quickstart and best-practice URLs of the version's bundle, or the
/// quickstart URL alone when no bundle is found.
pub open spec fn architecture_refs(kb: AdkKnowledgeBase, version: Seq<char>) -> Seq<Seq<char>> {
    match kb.docs_for(version) {
        Some(d) => views(seq![d.official_urls.quickstart] + d.official_urls.best_practices@),
        None => seq![quickstart_url()],
    }
}

/// Quickstart, best-practice and tutorial URLs of the version's bundle, or
/// the quickstart URL alone when no bundle is found.
pub open spec fn practice_refs(kb: AdkKnowledgeBase, version: Seq<char>) -> Seq<Seq<char>> {
    match kb.docs_for(version) {
        Some(d) => views(
            seq![d.official_urls.quickstart] + d.official_urls.best_practices@
                + d.official_urls.tutorials@,
        ),
        None => seq![quickstart_url()],
    }
}

// ---------------------------------------------------------------------------
// Scenario relevance

/// The practice mentions the scenario (ignoring case) in its title,
/// description or category.
pub open spec fn practice_relevant(p: BestPractice, scenario: Seq<char>) -> bool {
    let q = lower_of(scenario);
    seq_contains(lower_of(p.title@), q) || seq_contains(lower_of(p.description@), q)
        || seq_contains(lower_of(p.category@), q)
}

pub open spec fn relevant_practices(ps: Seq<BestPractice>, scenario: Seq<char>) -> Seq<
    BestPractice,
>
    decreases ps.len(),
{
    if ps.len() == 0 {
        seq![]
    } else {
        let rest = relevant_practices(ps.drop_last(), scenario);
        if practice_relevant(ps.last(), scenario) {
            rest.push(ps.last())
        } else {
            rest
        }
    }
}

/// Some use case mentions the scenario, ignoring case.
pub open spec fn use_case_mentions(use_cases: Seq<String>, scenario: Seq<char>) -> bool {
    exists|i: int|
        0 <= i < use_cases.len() && seq_contains(
            lower_of(#[trigger] use_cases[i]@),
            lower_of(scenario),
        )
}

/// The pattern mentions the scenario (ignoring case) in its name,
/// description or one of its use cases.
pub open spec fn pattern_relevant(p: ImplementationPattern, scenario: Seq<char>) -> bool {
    let q = lower_of(scenario);
    seq_contains(lower_of(p.name@), q) || seq_contains(lower_of(p.description@), q)
        || use_case_mentions(p.use_cases@, scenario)
}

pub open spec fn relevant_patterns(
    ps: Seq<(String, ImplementationPattern)>,
    scenario: Seq<char>,
) -> Seq<ImplementationPattern>
    decreases ps.len(),
{
    if ps.len() == 0 {
        seq![]
    } else {
        let rest = relevant_patterns(ps.drop_last(), scenario);
        if pattern_relevant(ps.last().1, scenario) {
            rest.push(ps.last().1)
        } else {
            rest
        }
    }
}

/// Two practices hold the same text.
pub open spec fn same_practice(a: BestPractice, b: BestPractice) -> bool {
    &&& a.title == b.title
    &&& a.description == b.description
    &&& a.category == b.category
    &&& a.examples@ == b.examples@
    &&& a.documentation_ref == b.documentation_ref
}

pub open spec fn same_practices(a: Seq<BestPractice>, b: Seq<BestPractice>) -> bool {
    a.len() == b.len() && forall|i: int| 0 <= i < a.len() ==> same_practice(#[trigger] a[i], b[i])
}

/// Two patterns hold the same text.
pub open spec fn same_pattern(a: ImplementationPattern, b: ImplementationPattern) -> bool {
    &&& a.name == b.name
    &&& a.description == b.description
    &&& a.use_cases@ == b.use_cases@
    &&& a.code_examples@ == b.code_examples@
    &&& a.related_practices@ == b.related_practices@
}

pub open spec fn same_patterns(a: Seq<ImplementationPattern>, b: Seq<ImplementationPattern>) -> bool {
    a.len() == b.len() && forall|i: int| 0 <= i < a.len() ==> same_pattern(#[trigger] a[i], b[i])
}

fn copy_practice(p: &BestPractice) -> (r: BestPractice)
    ensures
        same_practice(r, *p),
{
    BestPractice {
        title: p.title.clone(),
        description: p.description.clone(),
        category: p.category.clone(),
        examples: copy_strings(&p.examples),
        documentation_ref: p.documentation_ref.clone(),
    }
}

fn copy_pattern(p: &ImplementationPattern) -> (r: ImplementationPattern)
    ensures
        same_pattern(r, *p),
{
    let mut code_examples: Vec<CodeExample> = Vec::new();
    let mut i: usize = 0;
    while i < p.code_examples.len()
        invariant
            i <= p.code_examples@.len(),
            code_examples@ == p.code_examples@.take(i as int),
        decreases p.code_examples@.len() - i,
    {
        let e = &p.code_examples[i];
        code_examples.push(
            CodeExample {
                title: e.title.clone(),
                language: e.language.clone(),
                code: e.code.clone(),
                explanation: e.explanation.clone(),
            },
        );
        assert(p.code_examples@.take(i + 1) =~= p.code_examples@.take(i as int).push(*e));
        i = i + 1;
    }
    assert(p.code_examples@.take(p.code_examples@.len() as int) =~= p.code_examples@);
    ImplementationPattern {
        name: p.name.clone(),
        description: p.description.clone(),
        use_cases: copy_strings(&p.use_cases),
        code_examples,
        related_practices: copy_strings(&p.related_practices),
    }
}

fn strings3(a: &str, b: &str, c: &str) -> (r: Vec<String>)
    ensures
        views(r@) == seq![a@, b@, c@],
{
    let mut v: Vec<String> = Vec::new();
    v.push(String::from_str(a));
    v.push(String::from_str(b));
    v.push(String::from_str(c));
    assert(views(v@) =~= seq![a@, b@, c@]);
    v
}

fn text2(a: &str, b: &str) -> (r: String)
    ensures
        r@ == a@ + b@,
{
    let mut s = String::from_str(a);
    s.append(b);
    s
}

fn text3(a: &str, b: &str, c: &str) -> (r: String)
    ensures
        r@ == a@ + b@ + c@,
{
    let mut s = String::from_str(a);
    s.append(b);
    s.append(c);
    s
}

proof fn lemma_views_push(fs: Seq<ValidationFinding>, f: ValidationFinding)
    ensures
        finding_views(fs.push(f)) == finding_views(fs).push(f@),
{
    assert(finding_views(fs.push(f)) =~= finding_views(fs).push(f@));
}

/// The built-in architecture rules.
pub open spec fn default_architecture_rules(rs: Seq<ArchitectureRule>) -> bool {
    &&& rs.len() == 3
    &&& rs[0].id@ == "adk_structure"@
    &&& rs[0].name@ == "ADK Project Structure"@
    &&& rs[0].description@ == "Project should follow official ADK structure guidelines"@
    &&& rs[0].severity == ValidationSeverity::Warning
    &&& rs[0].pattern@ == "non-standard"@
    &&& rs[0].recommendation@
        == "Follow the official ADK project structure as documented in the quickstart guide"@
    &&& rs[1].id@ == "async_patterns"@
    &&& rs[1].name@ == "Async Pattern Usage"@
    &&& rs[1].description@ == "Should use proper async patterns as recommended by ADK"@
    &&& rs[1].severity == ValidationSeverity::Error
    &&& rs[1].pattern@ == "blocking operations"@
    &&& rs[1].recommendation@
        == "Use async/await patterns and non-blocking operations as specified in ADK guidelines"@
    &&& rs[2].id@ == "error_handling"@
    &&& rs[2].name@ == "Error Handling Patterns"@
    &&& rs[2].description@
        == "Should implement proper error handling following ADK conventions"@
    &&& rs[2].severity == ValidationSeverity::Error
    &&& rs[2].pattern@ == "panic"@
    &&& rs[2].recommendation@
        == "Use Result types and proper error propagation instead of panic! calls"@
}

/// The built-in code-pattern rules.
pub open spec fn default_code_rules(rs: Seq<CodePatternRule>) -> bool {
    &&& rs.len() == 3
    &&& rs[0].id@ == "unwrap_usage"@
    &&& rs[0].name@ == "Avoid unwrap() calls"@
    &&& rs[0].pattern@ == ".unwrap()"@
    &&& rs[0].expected_pattern@ == "proper error handling with ? operator or match"@
    &&& rs[0].rationale@ == "unwrap() can cause panics; use proper error handling instead"@
    &&& rs[0].severity == ValidationSeverity::Warning
    &&& rs[1].id@ == "panic_usage"@
    &&& rs[1].name@ == "Avoid panic! macro"@
    &&& rs[1].pattern@ == "panic!"@
    &&& rs[1].expected_pattern@ == "Result<T, E> return types with proper error handling"@
    &&& rs[1].rationale@ == "panic! should be avoided in favor of recoverable error handling"@
    &&& rs[1].severity == ValidationSeverity::Error
    &&& rs[2].id@ == "todo_usage"@
    &&& rs[2].name@ == "Remove TODO markers"@
    &&& rs[2].pattern@ == "todo!"@
    &&& rs[2].expected_pattern@ == "complete implementation"@
    &&& rs[2].rationale@ == "TODO markers indicate incomplete implementation"@
    &&& rs[2].severity == ValidationSeverity::Info
}

impl ValidationRules {
    /// The built-in rule catalog.
    pub fn new() -> (r: Self)
        ensures
            default_architecture_rules(r.architecture_rules@),
            default_code_rules(r.code_pattern_rules@),
            r.best_practice_rules@.len() == 1,
            r.best_practice_rules@[0].id@ == "official_patterns"@,
    {
        ValidationRules {
            architecture_rules: Self::create_default_architecture_rules(),
            code_pattern_rules: Self::create_default_code_pattern_rules(),
            best_practice_rules: Self::create_default_best_practice_rules(),
        }
    }

    fn create_default_architecture_rules() -> (r: Vec<ArchitectureRule>)
        ensures
            default_architecture_rules(r@),
    {
        let mut rules: Vec<ArchitectureRule> = Vec::new();
        rules.push(
            ArchitectureRule {
                id: String::from_str("adk_structure"),
                name: String::from_str("ADK Project Structure"),
                description: String::from_str(
                    "Project should follow official ADK structure guidelines",
                ),
                category: String::from_str("architecture"),
                severity: ValidationSeverity::Warning,
                pattern: String::from_str("non-standard"),
                recommendation: String::from_str(
                    "Follow the official ADK project structure as documented in the quickstart guide",
                ),
                documentation_ref: String::from_str(
                    "https://google.github.io/adk-docs/get-started/quickstart/",
                ),
            },
        );
        rules.push(
            ArchitectureRule {
                id: String::from_str("async_patterns"),
                name: String::from_str("Async Pattern Usage"),
                description: String::from_str(
                    "Should use proper async patterns as recommended by ADK",
                ),
                category: String::from_str("architecture"),
                severity: ValidationSeverity::Error,
                pattern: String::from_str("blocking operations"),
                recommendation: String::from_str(
                    "Use async/await patterns and non-blocking operations as specified in ADK guidelines",
                ),
                documentation_ref: String::from_str(
                    "https://google.github.io/adk-docs/best-practices/",
                ),
            },
        );
        rules.push(
            ArchitectureRule {
                id: String::from_str("error_handling"),
                name: String::from_str("Error Handling Patterns"),
                description: String::from_str(
                    "Should implement proper error handling following ADK conventions",
                ),
                category: String::from_str("error_handling"),
                severity: ValidationSeverity::Error,
                pattern: String::from_str("panic"),
                recommendation: String::from_str(
                    "Use Result types and proper error propagation instead of panic! calls",
                ),
                documentation_ref: String::from_str(
                    "https://google.github.io/adk-docs/best-practices/",
                ),
            },
        );
        rules
    }

    fn create_default_code_pattern_rules() -> (r: Vec<CodePatternRule>)
        ensures
            default_code_rules(r@),
    {
        let mut rules: Vec<CodePatternRule> = Vec::new();
        rules.push(
            CodePatternRule {
                id: String::from_str("unwrap_usage"),
                name: String::from_str("Avoid unwrap() calls"),
                pattern: String::from_str(".unwrap()"),
                expected_pattern: String::from_str(
                    "proper error handling with ? operator or match",
                ),
                rationale: String::from_str(
                    "unwrap() can cause panics; use proper error handling instead",
                ),
                category: String::from_str("error_handling"),
                severity: ValidationSeverity::Warning,
            },
        );
        rules.push(
            CodePatternRule {
                id: String::from_str("panic_usage"),
                name: String::from_str("Avoid panic! macro"),
                pattern: String::from_str("panic!"),
                expected_pattern: String::from_str(
                    "Result<T, E> return types with proper error handling",
                ),
                rationale: String::from_str(
                    "panic! should be avoided in favor of recoverable error handling",
                ),
                category: String::from_str("error_handling"),
                severity: ValidationSeverity::Error,
            },
        );
        rules.push(
            CodePatternRule {
                id: String::from_str("todo_usage"),
                name: String::from_str("Remove TODO markers"),
                pattern: String::from_str("todo!"),
                expected_pattern: String::from_str("complete implementation"),
                rationale: String::from_str("TODO markers indicate incomplete implementation"),
                category: String::from_str("completeness"),
                severity: ValidationSeverity::Info,
            },
        );
        rules
    }

    fn create_default_best_practice_rules() -> (r: Vec<BestPracticeRule>)
        ensures
            r@.len() == 1,
            r@[0].id@ == "official_patterns"@,
    {
        let mut rules: Vec<BestPracticeRule> = Vec::new();
        rules.push(
            BestPracticeRule {
                id: String::from_str("official_patterns"),
                practice_id: String::from_str("follow_official_patterns"),
                validation_logic: String::from_str(
                    "Check adherence to official ADK architectural patterns",
                ),
                success_criteria: strings3(
                    "Uses recommended project structure",
                    "Follows naming conventions",
                    "Implements proper async patterns",
                ),
                failure_indicators: strings3(
                    "Non-standard directory structure",
                    "Inconsistent naming",
                    "Blocking operations in async context",
                ),
                remediation_steps: strings3(
                    "Review official ADK documentation",
                    "Restructure project to match guidelines",
                    "Update code to use recommended patterns",
                ),
            },
        );
        rules
    }
}

impl PatternMatcher {
    /// The built-in patterns.
    pub fn new() -> (r: Self)
        ensures
            r.architecture_patterns@.len() == 1,
            r.architecture_patterns@[0].0@ == "adk_standard"@,
            r.code_patterns@.len() == 1,
            r.code_patterns@[0].0@ == "error_handling"@,
            keys_unique(r.architecture_patterns@),
            keys_unique(r.code_patterns@),
    {
        PatternMatcher {
            architecture_patterns: Self::create_default_architecture_patterns(),
            code_patterns: Self::create_default_code_patterns(),
        }
    }

    fn create_default_architecture_patterns() -> (r: Vec<(String, ArchitecturePattern)>)
        ensures
            r@.len() == 1,
            r@[0].0@ == "adk_standard"@,
    {
        let mut optional_components: Vec<String> = Vec::new();
        optional_components.push(String::from_str("Logging framework"));
        optional_components.push(String::from_str("Monitoring integration"));
        let mut anti_patterns: Vec<String> = Vec::new();
        anti_patterns.push(String::from_str("Blocking operations in async context"));
        anti_patterns.push(String::from_str("Panic-based error handling"));
        let mut patterns: Vec<(String, ArchitecturePattern)> = Vec::new();
        patterns.push(
            (
                String::from_str("adk_standard"),
                ArchitecturePattern {
                    name: String::from_str("Standard ADK Architecture"),
                    description: String::from_str(
                        "Standard architectural pattern recommended by Google ADK",
                    ),
                    required_components: strings3(
                        "Proper project structure",
                        "Configuration management",
                        "Error handling",
                    ),
                    optional_components,
                    anti_patterns,
                    validation_criteria: strings3(
                        "Follows ADK project structure",
                        "Uses async/await patterns",
                        "Implements proper error handling",
                    ),
                },
            ),
        );
        patterns
    }

    fn create_default_code_patterns() -> (r: Vec<(String, CodePattern)>)
        ensures
            r@.len() == 1,
            r@[0].0@ == "error_handling"@,
    {
        let mut compliance_indicators: Vec<String> = Vec::new();
        compliance_indicators.push(String::from_str("Uses Result<T, E> return types"));
        compliance_indicators.push(String::from_str("Proper error propagation with ? operator"));
        let mut non_compliance_indicators: Vec<String> = Vec::new();
        non_compliance_indicators.push(String::from_str("Uses unwrap() or expect()"));
        non_compliance_indicators.push(String::from_str("Uses panic! macro"));
        let mut patterns: Vec<(String, CodePattern)> = Vec::new();
        patterns.push(
            (
                String::from_str("error_handling"),
                CodePattern {
                    name: String::from_str("Proper Error Handling"),
                    pattern: String::from_str("Result<.*>"),
                    context: String::from_str("Function return types and error propagation"),
                    compliance_indicators,
                    non_compliance_indicators,
                },
            ),
        );
        patterns
    }
}

/// The snippets as text; none given counts as none at all.
pub open spec fn snippet_views(snippets: Option<&[String]>) -> Seq<Seq<char>> {
    match snippets {
        Some(v) => views(v@),
        None => seq![],
    }
}

/// The whole outcome of validating `description` and `snippets` against
/// the rules, for the (already resolved) `version`.
pub open spec fn expected_validation(
    rules: ValidationRules,
    kb: AdkKnowledgeBase,
    description: Seq<char>,
    snippets: Seq<Seq<char>>,
    version: Seq<char>,
) -> ValidationView {
    validation_from(
        rules,
        kb,
        arch_findings(rules.architecture_rules@, description),
        snippets,
        version,
    )
}

/// The outcome of a validation whose architecture findings are `arch`.
pub open spec fn validation_from(
    rules: ValidationRules,
    kb: AdkKnowledgeBase,
    arch: Seq<FindingView>,
    snippets: Seq<Seq<char>>,
    version: Seq<char>,
) -> ValidationView {
    let code = all_snippet_findings(rules.code_pattern_rules@, snippets);
    let findings = arch + code;
    let score = score_after(100, arch_penalties(arch) + code_penalties(code));
    ValidationView {
        is_compliant: score >= 80 && !has_error(findings),
        compliance_score: score as u8,
        findings: findings,
        recommendations: recommendations_for(findings, version),
        documentation_refs: architecture_refs(kb, version),
    }
}

/// Every rule pattern is ASCII text.
pub open spec fn patterns_ascii(rules: Seq<ArchitectureRule>) -> bool {
    forall|i: int| 0 <= i < rules.len() ==> is_ascii_text(#[trigger] rules[i].pattern@)
}

/// The architecture findings, matching patterns ignoring ASCII case.
pub open spec fn arch_findings_ascii(rules: Seq<ArchitectureRule>, description: Seq<char>) -> Seq<
    FindingView,
>
    decreases rules.len(),
{
    if rules.len() == 0 {
        seq![]
    } else {
        let rest = arch_findings_ascii(rules.drop_last(), description);
        if folded_contains(description, rules.last().pattern@) {
            rest.push(arch_finding(rules.last()))
        } else {
            rest
        }
    }
}

/// The whole outcome for ASCII text, with no lowercase function involved.
pub open spec fn expected_validation_ascii(
    rules: ValidationRules,
    kb: AdkKnowledgeBase,
    description: Seq<char>,
    snippets: Seq<Seq<char>>,
    version: Seq<char>,
) -> ValidationView {
    validation_from(
        rules,
        kb,
        arch_findings_ascii(rules.architecture_rules@, description),
        snippets,
        version,
    )
}

proof fn lemma_score_push(start: nat, ps: Seq<nat>, x: nat)
    ensures
        score_after(start, ps.push(x)) == (if score_after(start, ps) >= x {
            (score_after(start, ps) - x) as nat
        } else {
            0
        }),
{
    assert(ps.push(x).drop_last() =~= ps);
}

/// Deductions never raise a score above its start.
pub proof fn lemma_score_bounded(start: nat, ps: Seq<nat>)
    ensures
        score_after(start, ps) <= start,
    decreases ps.len(),
{
    if ps.len() > 0 {
        lemma_score_bounded(start, ps.drop_last());
    }
}

impl BestPracticesEnforcer {
    /// The version a request means: an alias resolved, or the default.
    pub open spec fn resolved_version(&self, version: Option<&str>) -> Seq<char> {
        self.resolve_opt(str_opt(version))
    }

    /// The version a request means, given as text.
    pub open spec fn resolve_opt(&self, version: Option<Seq<char>>) -> Seq<char> {
        match version {
            Some(v) => self.knowledge_base.version_config.resolve_spec(v),
            None => self.knowledge_base.default_version@,
        }
    }

    /// The built-in rules over the built-in knowledge.
    pub open spec fn is_builtin(&self) -> bool {
        &&& self.has_default_rules()
        &&& self.knowledge_base.holds_builtin_docs()
        &&& self.knowledge_base.default_version@ == "1.0.0"@
        &&& self.knowledge_base.version_config.is_builtin()
    }

    /// The rules of this engine are the built-in ones.
    pub open spec fn has_default_rules(&self) -> bool {
        &&& default_architecture_rules(self.validation_rules.architecture_rules@)
        &&& default_code_rules(self.validation_rules.code_pattern_rules@)
    }

    /// An engine with the built-in knowledge base and rules.
    pub fn new() -> (r: Self)
        ensures
            r.is_builtin(),
            r.has_default_rules(),
            r.knowledge_base.holds_builtin_docs(),
            r.knowledge_base.default_version@ == "1.0.0"@,
            r.knowledge_base.version_config.is_builtin(),
            r.knowledge_base.version_config.resolve_spec("latest"@) == "1.0.0"@,
            r.knowledge_base.version_config.resolve_spec("stable"@) == "1.0.0"@,
    {
        BestPracticesEnforcer {
            knowledge_base: AdkKnowledgeBase::new(),
            validation_rules: ValidationRules::new(),
            pattern_matcher: PatternMatcher::new(),
        }
    }

    /// An engine with the built-in rules over the given knowledge base.
    pub fn with_knowledge_base(knowledge_base: AdkKnowledgeBase) -> (r: Self)
        ensures
            r.has_default_rules(),
            r.knowledge_base == knowledge_base,
    {
        BestPracticesEnforcer {
            knowledge_base,
            validation_rules: ValidationRules::new(),
            pattern_matcher: PatternMatcher::new(),
        }
    }

    fn resolve(&self, version: Option<&str>) -> (r: String)
        ensures
            r@ == self.resolved_version(version),
    {
        match version {
            Some(v) => self.knowledge_base.resolve_version(v),
            None => self.knowledge_base.default_version.clone(),
        }
    }

    /// Validates an architecture description, and any code snippets, against
    /// the rule catalog (see `expected_validation`).
    pub fn validate_architecture(
        &self,
        description: &str,
        code_snippets: Option<&[String]>,
        version: Option<&str>,
    ) -> (r: ArchitectureValidationResult)
        ensures
            r@ == expected_validation(
                self.validation_rules,
                self.knowledge_base,
                description@,
                snippet_views(code_snippets),
                self.resolved_version(version),
            ),
            is_ascii_text(description@) && patterns_ascii(
                self.validation_rules.architecture_rules@,
            ) ==> r@ == expected_validation_ascii(
                self.validation_rules,
                self.knowledge_base,
                description@,
                snippet_views(code_snippets),
                self.resolved_version(version),
            ),
    {
        let resolved_version = self.resolve(version);
        let rules = &self.validation_rules.architecture_rules;
        let code_rules = &self.validation_rules.code_pattern_rules;
        let ghost d = description@;
        let mut findings: Vec<ValidationFinding> = Vec::new();
        let mut score: u8 = 100;
        let mut i: usize = 0;
        while i < rules.len()
            invariant
                d == description@,
                rules == &self.validation_rules.architecture_rules,
                i <= rules@.len(),
                finding_views(findings@) == arch_findings(rules@.take(i as int), d),
                score as nat == score_after(
                    100,
                    arch_penalties(arch_findings(rules@.take(i as int), d)),
                ),
                is_ascii_text(d) && patterns_ascii(rules@) ==> arch_findings(
                    rules@.take(i as int),
                    d,
                ) == arch_findings_ascii(rules@.take(i as int), d),
            decreases rules@.len() - i,
        {
            let ghost before = findings@;
            assert(rules@.take(i + 1).drop_last() =~= rules@.take(i as int));
            let rule = &rules[i];
            let checked = self.check_architecture_rule(rule, description, resolved_version.as_str());
            match checked {
                Some(finding) => {
                    let penalty: u8 = match finding.severity {
                        ValidationSeverity::Error => 20,
                        ValidationSeverity::Warning => 10,
                        ValidationSeverity::Info => 5,
                    };
                    score = if score >= penalty {
                        score - penalty
                    } else {
                        0
                    };
                    findings.push(finding);
                    proof {
                        lemma_views_push(before, finding);
                        let a = arch_findings(rules@.take(i as int), d);
                        assert(arch_penalties(a.push(finding@)) =~= arch_penalties(a).push(
                            arch_penalty(finding@.severity),
                        ));
                        lemma_score_push(100, arch_penalties(a), arch_penalty(finding@.severity));
                        assert(finding_views(findings@) == a.push(arch_finding(rules@[i as int])));
                        assert(arch_rule_matches(rules@[i as int], d));
                    }
                },
                None => {},
            }
            assert(rules@.take(i + 1).last() == rules@[i as int]);
            assert(arch_findings(rules@.take(i + 1), d) == (if arch_rule_matches(
                rules@[i as int],
                d,
            ) {
                arch_findings(rules@.take(i as int), d).push(arch_finding(rules@[i as int]))
            } else {
                arch_findings(rules@.take(i as int), d)
            }));
            assert(finding_views(findings@) == arch_findings(rules@.take(i + 1), d));
            assert(is_ascii_text(d) && patterns_ascii(rules@) ==> is_ascii_text(
                rules@[i as int].pattern@,
            ));
            i = i + 1;
        }
        assert(rules@.take(rules@.len() as int) =~= rules@);
        let ghost arch = arch_findings(rules@, d);
        let ghost snips: Seq<Seq<char>> = snippet_views(code_snippets);
        match code_snippets {
            Some(snippets) => {
                let mut j: usize = 0;
                assert(snips.take(0) =~= seq![]);
                assert(arch + seq![] =~= arch);
                assert(code_penalties(seq![]) =~= seq![]);
                assert(arch_penalties(arch) + seq![] =~= arch_penalties(arch));
                while j < snippets.len()
                    invariant
                        snips == views(snippets@),
                        arch == arch_findings(rules@, d),
                        code_rules == &self.validation_rules.code_pattern_rules,
                        j <= snippets@.len(),
                        finding_views(findings@) == arch + all_snippet_findings(
                            code_rules@,
                            snips.take(j as int),
                        ),
                        score as nat == score_after(
                            100,
                            arch_penalties(arch) + code_penalties(
                                all_snippet_findings(code_rules@, snips.take(j as int)),
                            ),
                        ),
                    decreases snippets@.len() - j,
                {
                    let found = self.validate_code_snippet(
                        snippets[j].as_str(),
                        j,
                        resolved_version.as_str(),
                    );
                    let ghost done = all_snippet_findings(code_rules@, snips.take(j as int));
                    let ghost fv = finding_views(found@);
                    let mut k: usize = 0;
                    assert(fv.take(0) + seq![] =~= seq![]);
                    assert(done + fv.take(0) =~= done);
                    while k < found.len()
                        invariant
                            arch == arch_findings(rules@, d),
                            done == all_snippet_findings(code_rules@, snips.take(j as int)),
                            k <= found@.len(),
                            fv == finding_views(found@),
                            finding_views(findings@) == arch + (done + fv.take(k as int)),
                            score as nat == score_after(
                                100,
                                arch_penalties(arch) + code_penalties(done + fv.take(k as int)),
                            ),
                        decreases found@.len() - k,
                    {
                        let finding = found[k].clone_finding();
                        let penalty: u8 = match finding.severity {
                            ValidationSeverity::Error => 15,
                            ValidationSeverity::Warning => 8,
                            ValidationSeverity::Info => 3,
                        };
                        score = if score >= penalty {
                            score - penalty
                        } else {
                            0
                        };
                        let ghost before = findings@;
                        findings.push(finding);
                        proof {
                            lemma_views_push(before, finding);
                            let cur = done + fv.take(k as int);
                            assert(done + fv.take(k + 1) =~= cur.push(fv[k as int]));
                            assert(arch + cur.push(fv[k as int]) =~= (arch + cur).push(
                                fv[k as int],
                            ));
                            assert(code_penalties(cur.push(fv[k as int])) =~= code_penalties(
                                cur,
                            ).push(code_penalty(fv[k as int].severity)));
                            assert(arch_penalties(arch) + code_penalties(cur).push(
                                code_penalty(fv[k as int].severity),
                            ) =~= (arch_penalties(arch) + code_penalties(cur)).push(
                                code_penalty(fv[k as int].severity),
                            ));
                            assert(fv[k as int] == finding@);
                            lemma_score_push(
                                100,
                                arch_penalties(arch) + code_penalties(cur),
                                code_penalty(fv[k as int].severity),
                            );
                        }
                        k = k + 1;
                    }
                    proof {
                        assert(fv.take(fv.len() as int) =~= fv);
                        assert(snips.take(j + 1).drop_last() =~= snips.take(j as int));
                        assert(snips.take(j + 1).last() == snippets@[j as int]@);
                        assert(all_snippet_findings(code_rules@, snips.take(j + 1))
                            == all_snippet_findings(code_rules@, snips.take(j as int))
                            + snippet_findings(code_rules@, snips.take(j + 1).last(), j as nat));
                    }
                    j = j + 1;
                }
                assert(snips.take(snippets@.len() as int) =~= snips);
            },
            None => {
                assert(arch + seq![] =~= arch);
                assert(code_penalties(seq![]) =~= seq![]);
                assert(arch_penalties(arch) + seq![] =~= arch_penalties(arch));
            },
        }
        let ghost all = finding_views(findings@);
        let recommendations = self.generate_recommendations(&findings, resolved_version.as_str());
        let documentation_refs = self.get_architecture_documentation_refs(
            resolved_version.as_str(),
        );
        let mut any_error = false;
        let mut m: usize = 0;
        while m < findings.len()
            invariant
                m <= findings@.len(),
                all == finding_views(findings@),
                any_error == exists|x: int|
                    0 <= x < m && #[trigger] all[x].severity == ValidationSeverity::Error,
            decreases findings@.len() - m,
        {
            assert(all[m as int] == findings@[m as int]@);
            if findings[m].severity == ValidationSeverity::Error {
                any_error = true;
                assert(all[m as int].severity == ValidationSeverity::Error);
            } else {
                assert(all[m as int].severity != ValidationSeverity::Error);
            }
            m = m + 1;
        }
        let is_compliant = score >= 80 && !any_error;
        ArchitectureValidationResult {
            is_compliant,
            compliance_score: score,
            findings,
            recommendations,
            documentation_refs,
        }
    }

    /// The finding of one architecture rule, when it fires.
    fn check_architecture_rule(&self, rule: &ArchitectureRule, description: &str, _version: &str) -> (r:
        Option<ValidationFinding>)
        ensures
            match r {
                Some(f) => arch_rule_matches(*rule, description@) && f@ == arch_finding(*rule),
                None => !arch_rule_matches(*rule, description@),
            },
            is_ascii_text(description@) && is_ascii_text(rule.pattern@) ==> (arch_rule_matches(
                *rule,
                description@,
            ) == folded_contains(description@, rule.pattern@)),
    {
        let description_lower = lowercase(description);
        let pattern_lower = lowercase(rule.pattern.as_str());
        proof {
            if is_ascii_text(description@) && is_ascii_text(rule.pattern@) {
                lemma_lowered_containment(
                    description@,
                    rule.pattern@,
                    description_lower@,
                    pattern_lower@,
                );
            }
        }
        if crate::text::contains(description_lower.as_str(), pattern_lower.as_str()) {
            let id = text2("arch_", rule.id.as_str());
            let text = text3(rule.name.as_str(), ": ", rule.description.as_str());
            Some(
                ValidationFinding {
                    id,
                    rule_id: rule.id.clone(),
                    severity: rule.severity,
                    description: text,
                    location: Some(String::from_str("Architecture Description")),
                    suggested_fix: Some(rule.recommendation.clone()),
                },
            )
        } else {
            None
        }
    }

    /// The findings of one snippet, numbered `index` from 0.
    fn validate_code_snippet(&self, snippet: &str, index: usize, _version: &str) -> (r: Vec<
        ValidationFinding,
    >)
        requires
            index < usize::MAX,
        ensures
            finding_views(r@) == snippet_findings(
                self.validation_rules.code_pattern_rules@,
                snippet@,
                index as nat,
            ),
    {
        let rules = &self.validation_rules.code_pattern_rules;
        let mut findings: Vec<ValidationFinding> = Vec::new();
        let mut i: usize = 0;
        while i < rules.len()
            invariant
                index < usize::MAX,
                i <= rules@.len(),
                finding_views(findings@) == snippet_findings(
                    rules@.take(i as int),
                    snippet@,
                    index as nat,
                ),
            decreases rules@.len() - i,
        {
            let rule = &rules[i];
            assert(rules@.take(i + 1).drop_last() =~= rules@.take(i as int));
            if crate::text::contains(snippet, rule.pattern.as_str()) {
                let number = decimal_string(index as u64);
                let mut id = text3("code_", number.as_str(), "_");
                id.append(rule.id.as_str());
                let position = decimal_string((index + 1) as u64);
                let finding = ValidationFinding {
                    id,
                    rule_id: rule.id.clone(),
                    severity: rule.severity,
                    description: text3(rule.name.as_str(), ": ", rule.rationale.as_str()),
                    location: Some(text2("Code Snippet ", position.as_str())),
                    suggested_fix: Some(text2("Consider using: ", rule.expected_pattern.as_str())),
                };
                let ghost before = findings@;
                findings.push(finding);
                proof {
                    lemma_views_push(before, finding);
                }
            }
            i = i + 1;
        }
        assert(rules@.take(rules@.len() as int) =~= rules@);
        findings
    }

    /// The recommendations for a list of findings (see `recommendations_for`).
    fn generate_recommendations(&self, findings: &Vec<ValidationFinding>, version: &str) -> (r:
        Vec<Recommendation>)
        ensures
            recommendation_views(r@) == recommendations_for(finding_views(findings@), version@),
    {
        let ghost fv = finding_views(findings@);
        let mut error_count: usize = 0;
        let mut warning_count: usize = 0;
        let mut i: usize = 0;
        while i < findings.len()
            invariant
                i <= findings@.len(),
                fv == finding_views(findings@),
                error_count as nat == count_severity(fv.take(i as int), ValidationSeverity::Error),
                warning_count as nat == count_severity(
                    fv.take(i as int),
                    ValidationSeverity::Warning,
                ),
                error_count <= i,
                warning_count <= i,
            decreases findings@.len() - i,
        {
            assert(fv.take(i + 1).drop_last() =~= fv.take(i as int));
            if findings[i].severity == ValidationSeverity::Error {
                error_count = error_count + 1;
            }
            if findings[i].severity == ValidationSeverity::Warning {
                warning_count = warning_count + 1;
            }
            i = i + 1;
        }
        assert(fv.take(fv.len() as int) =~= fv);
        let mut recommendations: Vec<Recommendation> = Vec::new();
        if error_count > 0 {
            let n = decimal_string(error_count as u64);
            recommendations.push(
                Recommendation {
                    id: String::from_str("rec_1"),
                    category: String::from_str("Critical Issues"),
                    priority: 1,
                    description: text3(
                        "Address ",
                        n.as_str(),
                        " critical architecture issues that prevent ADK compliance",
                    ),
                    implementation_steps: strings3(
                        "Review all error-level findings",
                        "Implement suggested fixes for critical issues",
                        "Validate changes against ADK guidelines",
                    ),
                    benefits: strings3(
                        "Ensures ADK compliance",
                        "Prevents runtime issues",
                        "Follows official best practices",
                    ),
                    documentation_ref: text2(
                        "https://google.github.io/adk-docs/best-practices/?version=",
                        version,
                    ),
                },
            );
        }
        if warning_count > 0 {
            let n = decimal_string(warning_count as u64);
            let id = if error_count > 0 {
                String::from_str("rec_2")
            } else {
                String::from_str("rec_1")
            };
            recommendations.push(
                Recommendation {
                    id,
                    category: String::from_str("Improvements"),
                    priority: 2,
                    description: text3(
                        "Consider addressing ",
                        n.as_str(),
                        " warning-level improvements for better ADK alignment",
                    ),
                    implementation_steps: strings3(
                        "Review warning-level findings",
                        "Prioritize improvements based on impact",
                        "Implement changes incrementally",
                    ),
                    benefits: strings3(
                        "Improves code quality",
                        "Better alignment with ADK patterns",
                        "Enhanced maintainability",
                    ),
                    documentation_ref: text2(
                        "https://google.github.io/adk-docs/best-practices/?version=",
                        version,
                    ),
                },
            );
        }
        assert(recommendation_views(recommendations@) =~= recommendations_for(fv, version@));
        recommendations
    }

    /// Quickstart and best-practice references (see `architecture_refs`).
    fn get_architecture_documentation_refs(&self, version: &str) -> (r: Vec<String>)
        ensures
            views(r@) == architecture_refs(self.knowledge_base, version@),
    {
        match self.knowledge_base.get_official_urls(Some(version)) {
            Some(urls) => {
                let mut refs: Vec<String> = Vec::new();
                refs.push(urls.quickstart.clone());
                extend_strings(&mut refs, &urls.best_practices);
                assert(refs@ =~= seq![urls.quickstart] + urls.best_practices@);
                refs
            },
            None => {
                let mut refs: Vec<String> = Vec::new();
                refs.push(
                    String::from_str("https://google.github.io/adk-docs/get-started/quickstart/"),
                );
                assert(views(refs@) =~= seq![quickstart_url()]);
                refs
            },
        }
    }
}

impl ValidationFinding {
    /// A copy of this finding.
    pub fn clone_finding(&self) -> (r: Self)
        ensures
            r@ == self@,
    {
        ValidationFinding {
            id: self.id.clone(),
            rule_id: self.rule_id.clone(),
            severity: self.severity,
            description: self.description.clone(),
            location: match &self.location {
                Some(l) => Some(l.clone()),
                None => None,
            },
            suggested_fix: match &self.suggested_fix {
                Some(f) => Some(f.clone()),
                None => None,
            },
        }
    }
}

impl BestPracticesEnforcer {
    /// What `get_best_practices` returns for a category or a scenario: the
    /// practices of the resolved version's bundle.
    pub open spec fn expected_practices(
        &self,
        scenario: Seq<char>,
        category: Option<Seq<char>>,
        version: Seq<char>,
    ) -> Seq<BestPractice> {
        match self.knowledge_base.docs_for(version) {
            Some(d) => match category {
                Some(c) => practices_in(d.best_practices@, c),
                None => relevant_practices(d.best_practices@, scenario),
            },
            None => seq![],
        }
    }

    /// The implementation patterns of the resolved version's bundle that are
    /// relevant to the scenario.
    pub open spec fn expected_patterns(&self, scenario: Seq<char>, version: Seq<char>) -> Seq<
        ImplementationPattern,
    > {
        match self.knowledge_base.docs_for(version) {
            Some(d) => relevant_patterns(d.implementation_patterns@, scenario),
            None => seq![],
        }
    }

    /// Practices, patterns and references for a scenario; a category, when
    /// given, selects the practices instead of the scenario.
    pub fn get_best_practices(&self, scenario: &str, category: Option<&str>, version: Option<&str>) -> (r:
        BestPracticesResult)
        ensures
            r.scenario@ == scenario@,
            r.version@ == self.resolved_version(version),
            same_practices(
                r.practices@,
                self.expected_practices(scenario@, str_opt(category), self.resolved_version(version)),
            ),
            same_patterns(
                r.patterns@,
                self.expected_patterns(scenario@, self.resolved_version(version)),
            ),
            views(r.documentation_refs@) == practice_refs(
                self.knowledge_base,
                self.resolved_version(version),
            ),
    {
        let resolved_version = self.resolve(version);
        let found = match category {
            Some(cat) => self.knowledge_base.get_best_practices_by_category(
                cat,
                Some(resolved_version.as_str()),
            ),
            None => self.get_scenario_relevant_practices(scenario, resolved_version.as_str()),
        };
        let ghost want = self.expected_practices(scenario@, str_opt(category), resolved_version@);
        let mut practices: Vec<BestPractice> = Vec::new();
        let mut i: usize = 0;
        while i < found.len()
            invariant
                i <= found@.len(),
                crate::expert::adk_knowledge::derefs(found@) == want,
                practices@.len() == i,
                forall|k: int| 0 <= k < i ==> same_practice(#[trigger] practices@[k], want[k]),
            decreases found@.len() - i,
        {
            let p = copy_practice(found[i]);
            assert(want[i as int] == *found@[i as int]);
            practices.push(p);
            i = i + 1;
        }
        let patterns = self.get_scenario_patterns(scenario, resolved_version.as_str());
        let documentation_refs = self.get_best_practices_documentation_refs(
            scenario,
            resolved_version.as_str(),
        );
        BestPracticesResult {
            scenario: String::from_str(scenario),
            practices,
            patterns,
            documentation_refs,
            version: resolved_version,
        }
    }

    /// The practices of the version's bundle that mention the scenario.
    fn get_scenario_relevant_practices(&self, scenario: &str, version: &str) -> (r: Vec<
        &BestPractice,
    >)
        ensures
            crate::expert::adk_knowledge::derefs(r@) == (match self.knowledge_base.docs_for(
                version@,
            ) {
                Some(d) => relevant_practices(d.best_practices@, scenario@),
                None => seq![],
            }),
    {
        let mut found: Vec<&BestPractice> = Vec::new();
        match self.knowledge_base.get_version_docs(version) {
            Some(docs) => {
                let q = lowercase(scenario);
                let ps = &docs.best_practices;
                let mut i: usize = 0;
                while i < ps.len()
                    invariant
                        q@ == lower_of(scenario@),
                        i <= ps@.len(),
                        crate::expert::adk_knowledge::derefs(found@) == relevant_practices(
                            ps@.take(i as int),
                            scenario@,
                        ),
                    decreases ps@.len() - i,
                {
                    let p = &ps[i];
                    assert(ps@.take(i + 1).drop_last() =~= ps@.take(i as int));
                    let title = lowercase(p.title.as_str());
                    let description = lowercase(p.description.as_str());
                    let category = lowercase(p.category.as_str());
                    if crate::text::contains(title.as_str(), q.as_str()) || crate::text::contains(
                        description.as_str(),
                        q.as_str(),
                    ) || crate::text::contains(category.as_str(), q.as_str()) {
                        let ghost before = found@;
                        found.push(p);
                        assert(crate::expert::adk_knowledge::derefs(found@)
                            =~= crate::expert::adk_knowledge::derefs(before).push(*p));
                    }
                    i = i + 1;
                }
                assert(ps@.take(ps@.len() as int) =~= ps@);
            },
            None => {
                assert(crate::expert::adk_knowledge::derefs(found@) =~= seq![]);
            },
        }
        found
    }

    /// Copies of the version's patterns that mention the scenario.
    fn get_scenario_patterns(&self, scenario: &str, version: &str) -> (r: Vec<
        ImplementationPattern,
    >)
        ensures
            same_patterns(r@, self.expected_patterns(scenario@, version@)),
    {
        let mut found: Vec<ImplementationPattern> = Vec::new();
        let ghost want = self.expected_patterns(scenario@, version@);
        match self.knowledge_base.get_version_docs(version) {
            Some(docs) => {
                let q = lowercase(scenario);
                let ps = &docs.implementation_patterns;
                let mut i: usize = 0;
                while i < ps.len()
                    invariant
                        q@ == lower_of(scenario@),
                        i <= ps@.len(),
                        same_patterns(found@, relevant_patterns(ps@.take(i as int), scenario@)),
                    decreases ps@.len() - i,
                {
                    let p = &ps[i].1;
                    assert(ps@.take(i + 1).drop_last() =~= ps@.take(i as int));
                    assert(ps@.take(i + 1).last().1 == *p);
                    let name = lowercase(p.name.as_str());
                    let description = lowercase(p.description.as_str());
                    let relevant = crate::text::contains(name.as_str(), q.as_str())
                        || crate::text::contains(description.as_str(), q.as_str())
                        || any_use_case_mentions(&p.use_cases, q.as_str(), scenario);
                    if relevant {
                        let copy = copy_pattern(p);
                        found.push(copy);
                    }
                    i = i + 1;
                }
                assert(ps@.take(ps@.len() as int) =~= ps@);
            },
            None => {},
        }
        found
    }

    /// Quickstart, best-practice and tutorial references (see `practice_refs`).
    fn get_best_practices_documentation_refs(&self, _scenario: &str, version: &str) -> (r: Vec<
        String,
    >)
        ensures
            views(r@) == practice_refs(self.knowledge_base, version@),
    {
        match self.knowledge_base.get_official_urls(Some(version)) {
            Some(urls) => {
                let mut refs: Vec<String> = Vec::new();
                refs.push(urls.quickstart.clone());
                extend_strings(&mut refs, &urls.best_practices);
                extend_strings(&mut refs, &urls.tutorials);
                assert(refs@ =~= seq![urls.quickstart] + urls.best_practices@ + urls.tutorials@);
                refs
            },
            None => {
                let mut refs: Vec<String> = Vec::new();
                refs.push(
                    String::from_str("https://google.github.io/adk-docs/get-started/quickstart/"),
                );
                assert(views(refs@) =~= seq![quickstart_url()]);
                refs
            },
        }
    }
}

/// Some use case, lowercased, contains `q` (the lowercased scenario).
fn any_use_case_mentions(use_cases: &Vec<String>, q: &str, scenario: &str) -> (r: bool)
    requires
        q@ == lower_of(scenario@),
    ensures
        r == use_case_mentions(use_cases@, scenario@),
{
    let mut i: usize = 0;
    while i < use_cases.len()
        invariant
            q@ == lower_of(scenario@),
            i <= use_cases@.len(),
            forall|k: int|
                0 <= k < i ==> !seq_contains(lower_of(#[trigger] use_cases@[k]@), lower_of(scenario@)),
        decreases use_cases@.len() - i,
    {
        let uc = lowercase(use_cases[i].as_str());
        if crate::text::contains(uc.as_str(), q) {
            return true;
        }
        i = i + 1;
    }
    false
}

// ---------------------------------------------------------------------------
// Laws of the scoring engine

proof fn lemma_no_arch_match_no_findings(rules: Seq<ArchitectureRule>, description: Seq<char>)
    requires
        forall|i: int| 0 <= i < rules.len() ==> !arch_rule_matches(#[trigger] rules[i], description),
    ensures
        arch_findings(rules, description).len() == 0,
    decreases rules.len(),
{
    if rules.len() > 0 {
        assert forall|i: int| 0 <= i < rules.drop_last().len() implies !arch_rule_matches(
            #[trigger] rules.drop_last()[i],
            description,
        ) by {
            assert(rules.drop_last()[i] == rules[i]);
        }
        lemma_no_arch_match_no_findings(rules.drop_last(), description);
        assert(!arch_rule_matches(rules[rules.len() - 1], description));
    }
}

proof fn lemma_no_code_match_no_findings(
    rules: Seq<CodePatternRule>,
    snippet: Seq<char>,
    index: nat,
)
    requires
        forall|k: int| 0 <= k < rules.len() ==> !code_rule_matches(#[trigger] rules[k], snippet),
    ensures
        snippet_findings(rules, snippet, index).len() == 0,
    decreases rules.len(),
{
    if rules.len() > 0 {
        assert forall|k: int| 0 <= k < rules.drop_last().len() implies !code_rule_matches(
            #[trigger] rules.drop_last()[k],
            snippet,
        ) by {
            assert(rules.drop_last()[k] == rules[k]);
        }
        lemma_no_code_match_no_findings(rules.drop_last(), snippet, index);
        assert(!code_rule_matches(rules[rules.len() - 1], snippet));
    }
}

proof fn lemma_clean_snippets_no_findings(rules: Seq<CodePatternRule>, snippets: Seq<Seq<char>>)
    requires
        forall|j: int, k: int|
            0 <= j < snippets.len() && 0 <= k < rules.len() ==> !code_rule_matches(
                #[trigger] rules[k],
                #[trigger] snippets[j],
            ),
    ensures
        all_snippet_findings(rules, snippets).len() == 0,
    decreases snippets.len(),
{
    if snippets.len() > 0 {
        let last = snippets.len() - 1;
        assert forall|j: int, k: int|
            0 <= j < snippets.drop_last().len() && 0 <= k < rules.len() implies !code_rule_matches(
            #[trigger] rules[k],
            #[trigger] snippets.drop_last()[j],
        ) by {
            assert(snippets.drop_last()[j] == snippets[j]);
        }
        lemma_clean_snippets_no_findings(rules, snippets.drop_last());
        assert forall|k: int| 0 <= k < rules.len() implies !code_rule_matches(
            #[trigger] rules[k],
            snippets.last(),
        ) by {
            assert(!code_rule_matches(rules[k], snippets[last]));
        }
        lemma_no_code_match_no_findings(rules, snippets.last(), last as nat);
    }
}

/// A description that triggers no architecture rule, with snippets that
/// trigger no code rule (or none at all), yields no finding, a score of 100
/// and a compliant verdict.
pub proof fn lemma_clean_input_is_fully_compliant(
    rules: ValidationRules,
    kb: AdkKnowledgeBase,
    description: Seq<char>,
    snippets: Seq<Seq<char>>,
    version: Seq<char>,
)
    requires
        forall|i: int|
            0 <= i < rules.architecture_rules@.len() ==> !arch_rule_matches(
                #[trigger] rules.architecture_rules@[i],
                description,
            ),
        forall|j: int, k: int|
            0 <= j < snippets.len() && 0 <= k < rules.code_pattern_rules@.len()
                ==> !code_rule_matches(
                #[trigger] rules.code_pattern_rules@[k],
                #[trigger] snippets[j],
            ),
    ensures
        expected_validation(rules, kb, description, snippets, version).findings.len() == 0,
        expected_validation(rules, kb, description, snippets, version).compliance_score == 100,
        expected_validation(rules, kb, description, snippets, version).is_compliant,
{
    let arch = arch_findings(rules.architecture_rules@, description);
    let code = all_snippet_findings(rules.code_pattern_rules@, snippets);
    lemma_no_arch_match_no_findings(rules.architecture_rules@, description);
    lemma_clean_snippets_no_findings(rules.code_pattern_rules@, snippets);
    assert(arch_penalties(arch) + code_penalties(code) =~= Seq::<nat>::empty());
    assert(arch + code =~= Seq::<FindingView>::empty());
}

proof fn lemma_matching_rule_is_found(rules: Seq<ArchitectureRule>, description: Seq<char>, i: int)
    requires
        0 <= i < rules.len(),
        arch_rule_matches(rules[i], description),
    ensures
        exists|k: int|
            0 <= k < arch_findings(rules, description).len() && #[trigger] arch_findings(
                rules,
                description,
            )[k].severity == rules[i].severity,
    decreases rules.len(),
{
    let fs = arch_findings(rules, description);
    if i == rules.len() - 1 {
        assert(fs[fs.len() - 1].severity == rules[i].severity);
    } else {
        assert(rules.drop_last()[i] == rules[i]);
        lemma_matching_rule_is_found(rules.drop_last(), description, i);
        let prev = arch_findings(rules.drop_last(), description);
        let k = choose|k: int| 0 <= k < prev.len() && #[trigger] prev[k].severity == rules[i].severity;
        assert(fs[k] == prev[k]);
    }
}

/// A description that triggers an Error-severity architecture rule is never
/// compliant, whatever the snippets and the score.
pub proof fn lemma_error_trigger_is_not_compliant(
    rules: ValidationRules,
    kb: AdkKnowledgeBase,
    description: Seq<char>,
    snippets: Seq<Seq<char>>,
    version: Seq<char>,
    i: int,
)
    requires
        0 <= i < rules.architecture_rules@.len(),
        rules.architecture_rules@[i].severity == ValidationSeverity::Error,
        arch_rule_matches(rules.architecture_rules@[i], description),
    ensures
        !expected_validation(rules, kb, description, snippets, version).is_compliant,
{
    let arch = arch_findings(rules.architecture_rules@, description);
    let code = all_snippet_findings(rules.code_pattern_rules@, snippets);
    lemma_matching_rule_is_found(rules.architecture_rules@, description, i);
    let k = choose|k: int|
        0 <= k < arch.len() && #[trigger] arch[k].severity == ValidationSeverity::Error;
    assert((arch + code)[k] == arch[k]);
    assert(has_error(arch + code));
}

/// Appending deductions never raises the score, and once the score is 0 it
/// stays 0.
pub proof fn lemma_score_never_rises(start: nat, penalties: Seq<nat>, more: Seq<nat>)
    ensures
        score_after(start, penalties + more) <= score_after(start, penalties),
        score_after(start, penalties) == 0 ==> score_after(start, penalties + more) == 0,
    decreases more.len(),
{
    if more.len() > 0 {
        lemma_score_never_rises(start, penalties, more.drop_last());
        assert((penalties + more).drop_last() =~= penalties + more.drop_last());
    } else {
        assert(penalties + more =~= penalties);
    }
}

/// The sum of the deductions.
pub open spec fn total(ps: Seq<nat>) -> nat
    decreases ps.len(),
{
    if ps.len() == 0 {
        0
    } else {
        total(ps.drop_last()) + ps.last()
    }
}

/// Successive clamped deductions equal one clamped subtraction of their sum.
pub proof fn lemma_score_is_clamped_difference(start: nat, ps: Seq<nat>)
    ensures
        score_after(start, ps) == (if total(ps) <= start {
            (start - total(ps)) as nat
        } else {
            0
        }),
    decreases ps.len(),
{
    if ps.len() > 0 {
        lemma_score_is_clamped_difference(start, ps.drop_last());
    }
}

proof fn lemma_total_concat(a: Seq<nat>, b: Seq<nat>)
    ensures
        total(a + b) == total(a) + total(b),
    decreases b.len(),
{
    if b.len() > 0 {
        assert((a + b).drop_last() =~= a + b.drop_last());
        lemma_total_concat(a, b.drop_last());
    } else {
        assert(a + b =~= a);
    }
}

proof fn lemma_weighted_totals(fs: Seq<FindingView>)
    ensures
        total(arch_penalties(fs)) == 20 * count_severity(fs, ValidationSeverity::Error) + 10
            * count_severity(fs, ValidationSeverity::Warning) + 5 * count_severity(
            fs,
            ValidationSeverity::Info,
        ),
        total(code_penalties(fs)) == 15 * count_severity(fs, ValidationSeverity::Error) + 8
            * count_severity(fs, ValidationSeverity::Warning) + 3 * count_severity(
            fs,
            ValidationSeverity::Info,
        ),
    decreases fs.len(),
{
    if fs.len() > 0 {
        lemma_weighted_totals(fs.drop_last());
        assert(arch_penalties(fs).drop_last() =~= arch_penalties(fs.drop_last()));
        assert(code_penalties(fs).drop_last() =~= code_penalties(fs.drop_last()));
    }
}

/// The score is 100 less 20/10/5 per Error/Warning/Info architecture
/// finding and 15/8/3 per Error/Warning/Info snippet finding, and 0 when
/// that would be negative.
pub proof fn lemma_score_formula(
    rules: ValidationRules,
    kb: AdkKnowledgeBase,
    description: Seq<char>,
    snippets: Seq<Seq<char>>,
    version: Seq<char>,
)
    ensures
        ({
            let arch = arch_findings(rules.architecture_rules@, description);
            let code = all_snippet_findings(rules.code_pattern_rules@, snippets);
            let deducted = 20 * count_severity(arch, ValidationSeverity::Error) + 10
                * count_severity(arch, ValidationSeverity::Warning) + 5 * count_severity(
                arch,
                ValidationSeverity::Info,
            ) + 15 * count_severity(code, ValidationSeverity::Error) + 8 * count_severity(
                code,
                ValidationSeverity::Warning,
            ) + 3 * count_severity(code, ValidationSeverity::Info);
            expected_validation(rules, kb, description, snippets, version).compliance_score
                == (if deducted <= 100 {
                100 - deducted
            } else {
                0
            })
        }),
{
    let arch = arch_findings(rules.architecture_rules@, description);
    let code = all_snippet_findings(rules.code_pattern_rules@, snippets);
    let ps = arch_penalties(arch) + code_penalties(code);
    lemma_weighted_totals(arch);
    lemma_weighted_totals(code);
    lemma_total_concat(arch_penalties(arch), code_penalties(code));
    lemma_score_is_clamped_difference(100, ps);
    lemma_score_bounded(100, ps);
}

proof fn lemma_total_push(ps: Seq<nat>, p: nat)
    ensures
        total(ps.push(p)) == total(ps) + p,
{
    assert(ps.push(p).drop_last() =~= ps);
}

proof fn lemma_arch_ascii_grows(rules: Seq<ArchitectureRule>, d: Seq<char>, x: Seq<char>)
    ensures
        total(arch_penalties(arch_findings_ascii(rules, d))) <= total(
            arch_penalties(arch_findings_ascii(rules, d + x)),
        ),
        forall|k: int|
            0 <= k < arch_findings_ascii(rules, d).len() ==> arch_findings_ascii(
                rules,
                d + x,
            ).contains(#[trigger] arch_findings_ascii(rules, d)[k]),
    decreases rules.len(),
{
    if rules.len() > 0 {
        let r = rules.drop_last();
        lemma_arch_ascii_grows(r, d, x);
        let a1 = arch_findings_ascii(r, d);
        let a2 = arch_findings_ascii(r, d + x);
        let f = arch_finding(rules.last());
        let pen = arch_penalty(f.severity);
        let m1 = folded_contains(d, rules.last().pattern@);
        let m2 = folded_contains(d + x, rules.last().pattern@);
        if m1 {
            lemma_folded_extends(d, x, rules.last().pattern@);
        }
        assert(arch_penalties(a1.push(f)) =~= arch_penalties(a1).push(pen));
        assert(arch_penalties(a2.push(f)) =~= arch_penalties(a2).push(pen));
        lemma_total_push(arch_penalties(a1), pen);
        lemma_total_push(arch_penalties(a2), pen);
        let b1 = arch_findings_ascii(rules, d);
        let b2 = arch_findings_ascii(rules, d + x);
        assert forall|k: int| 0 <= k < b1.len() implies b2.contains(#[trigger] b1[k]) by {
            if k < a1.len() {
                assert(b1[k] == a1[k]);
                let j = choose|j: int| 0 <= j < a2.len() && a2[j] == a1[k];
                if m2 {
                    assert(b2[j] == a2[j]);
                }
            } else {
                assert(b1[k] == f);
                assert(b2[b2.len() - 1] == f);
            }
        }
    }
}

proof fn lemma_code_prefix(rules: Seq<CodePatternRule>, s: Seq<Seq<char>>, t: Seq<Seq<char>>)
    ensures
        all_snippet_findings(rules, s).len() <= all_snippet_findings(rules, s + t).len(),
        all_snippet_findings(rules, s + t).subrange(0, all_snippet_findings(rules, s).len() as int)
            == all_snippet_findings(rules, s),
    decreases t.len(),
{
    if t.len() == 0 {
        assert(s + t =~= s);
        assert(all_snippet_findings(rules, s).subrange(
            0,
            all_snippet_findings(rules, s).len() as int,
        ) =~= all_snippet_findings(rules, s));
    } else {
        lemma_code_prefix(rules, s, t.drop_last());
        assert((s + t).drop_last() =~= s + t.drop_last());
        let before = all_snippet_findings(rules, s + t.drop_last());
        let a = all_snippet_findings(rules, s);
        let whole = all_snippet_findings(rules, s + t);
        assert(whole == before + snippet_findings(
            rules,
            (s + t).last(),
            ((s + t).len() - 1) as nat,
        ));
        assert(whole.subrange(0, a.len() as int) =~= before.subrange(0, a.len() as int));
    }
}

/// Appending text to the description and adding snippets never raises the
/// score, and every finding of the shorter input is found again (text
/// compared ignoring ASCII case, as validation does on ASCII text).
pub proof fn lemma_longer_input_never_raises_the_score(
    rules: ValidationRules,
    kb: AdkKnowledgeBase,
    description: Seq<char>,
    more_text: Seq<char>,
    snippets: Seq<Seq<char>>,
    more_snippets: Seq<Seq<char>>,
    version: Seq<char>,
)
    ensures
        expected_validation_ascii(
            rules,
            kb,
            description + more_text,
            snippets + more_snippets,
            version,
        ).compliance_score <= expected_validation_ascii(
            rules,
            kb,
            description,
            snippets,
            version,
        ).compliance_score,
        forall|k: int|
            0 <= k < expected_validation_ascii(rules, kb, description, snippets, version).findings.len()
                ==> expected_validation_ascii(
                rules,
                kb,
                description + more_text,
                snippets + more_snippets,
                version,
            ).findings.contains(
                #[trigger] expected_validation_ascii(
                    rules,
                    kb,
                    description,
                    snippets,
                    version,
                ).findings[k],
            ),
{
    let ar = rules.architecture_rules@;
    let cr = rules.code_pattern_rules@;
    let a1 = arch_findings_ascii(ar, description);
    let a2 = arch_findings_ascii(ar, description + more_text);
    let c1 = all_snippet_findings(cr, snippets);
    let c2 = all_snippet_findings(cr, snippets + more_snippets);
    lemma_arch_ascii_grows(ar, description, more_text);
    lemma_code_prefix(cr, snippets, more_snippets);
    let rest = c2.subrange(c1.len() as int, c2.len() as int);
    assert(c2 =~= c1 + rest);
    assert(code_penalties(c1 + rest) =~= code_penalties(c1) + code_penalties(rest));
    lemma_total_concat(code_penalties(c1), code_penalties(rest));
    lemma_total_concat(arch_penalties(a1), code_penalties(c1));
    lemma_total_concat(arch_penalties(a2), code_penalties(c2));
    lemma_score_is_clamped_difference(100, arch_penalties(a1) + code_penalties(c1));
    lemma_score_is_clamped_difference(100, arch_penalties(a2) + code_penalties(c2));
    let f1 = a1 + c1;
    let f2 = a2 + c2;
    assert forall|k: int| 0 <= k < f1.len() implies f2.contains(#[trigger] f1[k]) by {
        if k < a1.len() {
            assert(f1[k] == a1[k]);
            let j = choose|j: int| 0 <= j < a2.len() && a2[j] == a1[k];
            assert(f2[j] == a2[j]);
        } else {
            let k2 = k - a1.len();
            assert(f1[k] == c1[k2]);
            assert(c2[k2] == c1[k2]);
            assert(f2[a2.len() + k2] == c2[k2]);
        }
    }
}

proof fn lemma_arch_locations(rules: Seq<ArchitectureRule>, description: Seq<char>)
    ensures
        forall|k: int|
            0 <= k < arch_findings(rules, description).len() ==> (#[trigger] arch_findings(
                rules,
                description,
            )[k]).location == Some("Architecture Description"@),
    decreases rules.len(),
{
    if rules.len() > 0 {
        lemma_arch_locations(rules.drop_last(), description);
    }
}

proof fn lemma_snippet_locations(rules: Seq<CodePatternRule>, snippet: Seq<char>, index: nat)
    ensures
        forall|k: int|
            0 <= k < snippet_findings(rules, snippet, index).len() ==> (
            #[trigger] snippet_findings(rules, snippet, index)[k]).location == Some(
                "Code Snippet "@ + decimal(index + 1),
            ),
    decreases rules.len(),
{
    if rules.len() > 0 {
        lemma_snippet_locations(rules.drop_last(), snippet, index);
    }
}

proof fn lemma_all_snippet_locations(rules: Seq<CodePatternRule>, snippets: Seq<Seq<char>>)
    ensures
        forall|k: int|
            0 <= k < all_snippet_findings(rules, snippets).len() ==> exists|n: nat|
                (#[trigger] all_snippet_findings(rules, snippets)[k]).location == Some(
                    "Code Snippet "@ + decimal(n),
                ),
    decreases snippets.len(),
{
    if snippets.len() > 0 {
        let before = all_snippet_findings(rules, snippets.drop_last());
        let last = (snippets.len() - 1) as nat;
        let added = snippet_findings(rules, snippets.last(), last);
        lemma_all_snippet_locations(rules, snippets.drop_last());
        lemma_snippet_locations(rules, snippets.last(), last);
        assert forall|k: int|
            0 <= k < all_snippet_findings(rules, snippets).len() implies exists|n: nat|
                (#[trigger] all_snippet_findings(rules, snippets)[k]).location == Some(
                    "Code Snippet "@ + decimal(n),
                ) by {
            if k < before.len() {
                assert(all_snippet_findings(rules, snippets)[k] == before[k]);
            } else {
                assert(all_snippet_findings(rules, snippets)[k] == added[k - before.len()]);
                assert(added[k - before.len()].location == Some("Code Snippet "@ + decimal(last + 1)));
            }
        }
    }
}

/// Every architecture finding is located in "Architecture Description" and
/// every snippet finding in "Code Snippet n", so the counts in
/// `lemma_score_formula` are the counts of findings by location.
pub proof fn lemma_findings_located_by_kind(
    rules: ValidationRules,
    description: Seq<char>,
    snippets: Seq<Seq<char>>,
)
    ensures
        forall|k: int|
            0 <= k < arch_findings(rules.architecture_rules@, description).len() ==> (
            #[trigger] arch_findings(rules.architecture_rules@, description)[k]).location == Some(
                "Architecture Description"@,
            ),
        forall|k: int|
            0 <= k < all_snippet_findings(rules.code_pattern_rules@, snippets).len() ==> exists|
                n: nat,
            |
                (#[trigger] all_snippet_findings(rules.code_pattern_rules@, snippets)[k]).location
                    == Some("Code Snippet "@ + decimal(n)),
        forall|n: nat| "Code Snippet "@ + decimal(n) != "Architecture Description"@,
{
    lemma_arch_locations(rules.architecture_rules@, description);
    lemma_all_snippet_locations(rules.code_pattern_rules@, snippets);
    reveal_strlit("Code Snippet ");
    reveal_strlit("Architecture Description");
    assert forall|n: nat| "Code Snippet "@ + decimal(n) != "Architecture Description"@ by {
        assert(("Code Snippet "@ + decimal(n))[0] == 'C');
        assert("Architecture Description"@[0] == 'A');
    }
}

/// Validating with one more snippet never gives a higher score.
pub proof fn lemma_more_snippets_never_raise_the_score(
    rules: ValidationRules,
    kb: AdkKnowledgeBase,
    description: Seq<char>,
    snippets: Seq<Seq<char>>,
    extra: Seq<char>,
    version: Seq<char>,
)
    ensures
        expected_validation(rules, kb, description, snippets.push(extra), version).compliance_score
            <= expected_validation(rules, kb, description, snippets, version).compliance_score,
{
    let cr = rules.code_pattern_rules@;
    let ap = arch_penalties(arch_findings(rules.architecture_rules@, description));
    let before = all_snippet_findings(cr, snippets);
    let added = snippet_findings(cr, extra, snippets.len());
    assert(snippets.push(extra).drop_last() =~= snippets);
    assert(all_snippet_findings(cr, snippets.push(extra)) == before + added);
    assert(code_penalties(before + added) =~= code_penalties(before) + code_penalties(added));
    assert(ap + (code_penalties(before) + code_penalties(added)) =~= (ap + code_penalties(before))
        + code_penalties(added));
    lemma_score_never_rises(100, ap + code_penalties(before), code_penalties(added));
    lemma_score_bounded(100, ap + code_penalties(before));
    lemma_score_bounded(100, ap + code_penalties(before + added));
}

/// The score of a validation lies in [0, 100].
pub proof fn lemma_score_in_range(
    rules: ValidationRules,
    kb: AdkKnowledgeBase,
    description: Seq<char>,
    snippets: Seq<Seq<char>>,
    version: Seq<char>,
)
    ensures
        expected_validation(rules, kb, description, snippets, version).compliance_score <= 100,
{
    let arch = arch_findings(rules.architecture_rules@, description);
    let code = all_snippet_findings(rules.code_pattern_rules@, snippets);
    lemma_score_bounded(100, arch_penalties(arch) + code_penalties(code));
}

/// Validating the same description, snippets and version twice gives the
/// same result, text for text.
pub proof fn lemma_validation_is_deterministic(
    e: BestPracticesEnforcer,
    description: Seq<char>,
    snippets: Seq<Seq<char>>,
    version: Seq<char>,
    first: ArchitectureValidationResult,
    second: ArchitectureValidationResult,
)
    requires
        first@ == expected_validation(
            e.validation_rules,
            e.knowledge_base,
            description,
            snippets,
            version,
        ),
        second@ == expected_validation(
            e.validation_rules,
            e.knowledge_base,
            description,
            snippets,
            version,
        ),
    ensures
        first@ == second@,
{
}

} // verus!
