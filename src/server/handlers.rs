//! The four operations: parameter checks, then the answer as markdown.
use vstd::prelude::*;
use crate::expert::adk_knowledge::{views, BestPractice, CodeExample, ImplementationPattern};
use crate::expert::best_practices::{
    expected_validation, snippet_views, ArchitectureValidationResult, BestPracticesEnforcer,
    BestPracticesResult, FindingView, RecommendationView, ValidationSeverity, ValidationView,
    same_patterns, same_practices, practice_refs,
};
use crate::expert::DocumentationExpert;
use crate::review::{CodeReviewEngine, ReviewResult, seq_view};
use crate::review::analyzer::{
    architecture_spec, compliance_spec, organization_spec, translation_spec, ItemFacts,
    RustCodeAnalyzer,
};
use crate::review::suggestions::{format_review_suggestions, review_text};
use crate::utils::error::ArkaftMcpError;
use crate::text::{
    append_dash_lines, append_url_lines, concat_all, dash_lines, decimal, decimal_string,
    ends_with, is_blank, is_blank_seq, seq_ends_with, str_opt, string_opt, url_lines,
};

verus! {

pub open spec fn severity_icon(s: ValidationSeverity) -> Seq<char> {
    match s {
        ValidationSeverity::Error => "🔴"@,
        ValidationSeverity::Warning => "🟡"@,
        ValidationSeverity::Info => "🔵"@,
    }
}

pub open spec fn location_part(f: FindingView) -> Seq<char> {
    match f.location {
        Some(l) => "**Location:** "@ + l + "\n\n"@,
        None => seq![],
    }
}

pub open spec fn fix_part(f: FindingView) -> Seq<char> {
    match f.suggested_fix {
        Some(x) => "**Suggested Fix:** "@ + x + "\n\n"@,
        None => seq![],
    }
}

pub open spec fn finding_section(f: FindingView) -> Seq<char> {
    "### "@ + severity_icon(f.severity) + " "@ + f.description + "\n\n"@ + location_part(f)
        + "\n\n"@ + fix_part(f) + "---\n\n"@
}

pub open spec fn labelled_lines(label: Seq<char>, items: Seq<Seq<char>>) -> Seq<char> {
    if items.len() == 0 {
        seq![]
    } else {
        label + dash_lines(items) + "\n"@
    }
}

pub open spec fn recommendation_section(r: RecommendationView) -> Seq<char> {
    "### "@ + r.description + " (Priority: "@ + decimal(r.priority as nat) + ")\n\n"@ + r.category
        + "\n\n"@ + labelled_lines("**Implementation Steps:**\n"@, r.implementation_steps)
        + labelled_lines("**Benefits:**\n"@, r.benefits) + "**Reference:** ["@
        + r.documentation_ref + "]("@ + r.documentation_ref + ")\n\n"@ + "---\n\n"@
}

pub open spec fn section(heading: Seq<char>, entries: Seq<Seq<char>>) -> Seq<char> {
    if entries.len() == 0 {
        seq![]
    } else {
        heading + concat_all(entries)
    }
}

pub open spec fn references_section(refs: Seq<Seq<char>>) -> Seq<char> {
    if refs.len() == 0 {
        seq![]
    } else {
        "## Official Documentation References\n\n"@ + url_lines(refs) + "\n"@
    }
}

/// The markdown of a validation result.
pub open spec fn validation_text(v: ValidationView) -> Seq<char> {
    "# Architecture Validation Result\n\n**Compliance Status:** "@ + (if v.is_compliant {
        "✅ COMPLIANT"@
    } else {
        "❌ NON-COMPLIANT"@
    }) + "\n**Compliance Score:** "@ + decimal(v.compliance_score as nat) + "/100\n\n"@ + section(
        "## Validation Findings\n\n"@,
        v.findings.map_values(|f: FindingView| finding_section(f)),
    ) + section(
        "## Recommendations\n\n"@,
        v.recommendations.map_values(|x: RecommendationView| recommendation_section(x)),
    ) + references_section(v.documentation_refs)
        + "---\n\n*This validation is based on official Google ADK best practices and architectural guidelines.*"@
}

fn severity_text(s: ValidationSeverity) -> (r: &'static str)
    ensures
        r@ == severity_icon(s),
{
    match s {
        ValidationSeverity::Error => "🔴",
        ValidationSeverity::Warning => "🟡",
        ValidationSeverity::Info => "🔵",
    }
}

fn append_labelled_lines(out: &mut String, label: &str, items: &Vec<String>)
    ensures
        final(out)@ == old(out)@ + labelled_lines(label@, views(items@)),
{
    if items.len() > 0 {
        out.append(label);
        append_dash_lines(out, items);
        out.append("\n");
        assert(final(out)@ =~= old(out)@ + labelled_lines(label@, views(items@)));
    } else {
        assert(final(out)@ =~= old(out)@ + labelled_lines(label@, views(items@)));
    }
}

fn append_references(out: &mut String, refs: &Vec<String>)
    ensures
        final(out)@ == old(out)@ + references_section(views(refs@)),
{
    if refs.len() > 0 {
        out.append("## Official Documentation References\n\n");
        append_url_lines(out, refs);
        out.append("\n");
        assert(final(out)@ =~= old(out)@ + references_section(views(refs@)));
    } else {
        assert(final(out)@ =~= old(out)@ + references_section(views(refs@)));
    }
}

fn append_finding(out: &mut String, f: &crate::expert::best_practices::ValidationFinding)
    ensures
        final(out)@ == old(out)@ + finding_section(f@),
{
    let ghost start = out@;
    out.append("### ");
    out.append(severity_text(f.severity));
    out.append(" ");
    out.append(f.description.as_str());
    out.append("\n\n");
    let ghost head = out@;
    match &f.location {
        Some(l) => {
            out.append("**Location:** ");
            out.append(l.as_str());
            out.append("\n\n");
        },
        None => {},
    }
    assert(out@ =~= head + location_part(f@));
    let ghost with_location = out@;
    out.append("\n\n");
    let ghost gap = out@;
    match &f.suggested_fix {
        Some(x) => {
            out.append("**Suggested Fix:** ");
            out.append(x.as_str());
            out.append("\n\n");
        },
        None => {},
    }
    assert(out@ =~= gap + fix_part(f@));
    out.append("---\n\n");
    assert(out@ =~= start + finding_section(f@));
}

fn append_recommendation(out: &mut String, rec: &crate::expert::best_practices::Recommendation)
    ensures
        final(out)@ == old(out)@ + recommendation_section(rec@),
{
    let ghost start = out@;
    out.append("### ");
    out.append(rec.description.as_str());
    out.append(" (Priority: ");
    out.append(decimal_string(rec.priority as u64).as_str());
    out.append(")\n\n");
    out.append(rec.category.as_str());
    out.append("\n\n");
    let ghost head = out@;
    append_labelled_lines(out, "**Implementation Steps:**\n", &rec.implementation_steps);
    append_labelled_lines(out, "**Benefits:**\n", &rec.benefits);
    let ghost lists = out@;
    out.append("**Reference:** [");
    out.append(rec.documentation_ref.as_str());
    out.append("](");
    out.append(rec.documentation_ref.as_str());
    out.append(")\n\n");
    out.append("---\n\n");
    assert(out@ =~= start + recommendation_section(rec@));
}

/// The markdown of a validation result (see `validation_text`).
pub fn format_architecture_validation_result(result: &ArchitectureValidationResult) -> (r: String)
    ensures
        r@ == validation_text(result@),
{
    let mut response = String::from_str("# Architecture Validation Result\n\n**Compliance Status:** ");
    if result.is_compliant {
        response.append("✅ COMPLIANT");
    } else {
        response.append("❌ NON-COMPLIANT");
    }
    response.append("\n**Compliance Score:** ");
    response.append(decimal_string(result.compliance_score as u64).as_str());
    response.append("/100\n\n");
    let ghost s0 = response@;
    let ghost fs = result@.findings.map_values(|f: FindingView| finding_section(f));
    if result.findings.len() > 0 {
        response.append("## Validation Findings\n\n");
        let ghost start = response@;
        let v = &result.findings;
        let mut i: usize = 0;
        while i < v.len()
            invariant
                fs == crate::expert::best_practices::finding_views(v@).map_values(
                    |f: FindingView| finding_section(f),
                ),
                i <= v@.len(),
                response@ == start + concat_all(fs.take(i as int)),
            decreases v@.len() - i,
        {
            let f = &v[i];
            append_finding(&mut response, f);
            assert(fs.take(i + 1).drop_last() =~= fs.take(i as int));
            assert(fs.take(i + 1).last() == finding_section(f@));
            assert(response@ =~= start + concat_all(fs.take(i + 1)));
            i = i + 1;
        }
        assert(fs.take(v@.len() as int) =~= fs);
    }
    let ghost s1 = response@;
    assert(s1 =~= s0 + section("## Validation Findings\n\n"@, fs));
    let ghost rs = result@.recommendations.map_values(
        |x: RecommendationView| recommendation_section(x),
    );
    if result.recommendations.len() > 0 {
        response.append("## Recommendations\n\n");
        let ghost start = response@;
        let v = &result.recommendations;
        let mut i: usize = 0;
        while i < v.len()
            invariant
                rs == crate::expert::best_practices::recommendation_views(v@).map_values(
                    |x: RecommendationView| recommendation_section(x),
                ),
                i <= v@.len(),
                response@ == start + concat_all(rs.take(i as int)),
            decreases v@.len() - i,
        {
            let rec = &v[i];
            append_recommendation(&mut response, rec);
            assert(rs.take(i + 1).drop_last() =~= rs.take(i as int));
            assert(rs.take(i + 1).last() == recommendation_section(rec@));
            assert(response@ =~= start + concat_all(rs.take(i + 1)));
            i = i + 1;
        }
        assert(rs.take(v@.len() as int) =~= rs);
    }
    let ghost s2 = response@;
    assert(s2 =~= s1 + section("## Recommendations\n\n"@, rs));
    append_references(&mut response, &result.documentation_refs);
    response.append(
        "---\n\n*This validation is based on official Google ADK best practices and architectural guidelines.*",
    );
    assert(response@ =~= validation_text(result@));
    response
}

// ---------------------------------------------------------------------------
// Best practices

pub open spec fn practice_section(p: BestPractice) -> Seq<char> {
    "### "@ + p.title@ + "\n\n**Category:** "@ + p.category@ + "\n\n"@ + p.description@ + "\n\n"@
        + labelled_lines("**Examples:**\n"@, views(p.examples@)) + "**Reference:** ["@
        + p.documentation_ref@ + "]("@ + p.documentation_ref@ + ")\n\n"@ + "---\n\n"@
}

pub open spec fn code_example_section(e: CodeExample) -> Seq<char> {
    "#### "@ + e.title@ + "\n\n```"@ + e.language@ + "\n"@ + e.code@ + "\n```\n\n"@
        + e.explanation@ + "\n\n"@
}

pub open spec fn code_examples_part(es: Seq<CodeExample>) -> Seq<char> {
    section(
        "**Code Examples:**\n\n"@,
        es.map_values(|e: CodeExample| code_example_section(e)),
    )
}

pub open spec fn pattern_section(p: ImplementationPattern) -> Seq<char> {
    "### "@ + p.name@ + "\n\n"@ + p.description@ + "\n\n"@ + labelled_lines(
        "**Use Cases:**\n"@,
        views(p.use_cases@),
    ) + code_examples_part(p.code_examples@) + labelled_lines(
        "**Related Practices:**\n"@,
        views(p.related_practices@),
    ) + "---\n\n"@
}

/// The markdown of a best-practices result.
pub open spec fn practices_text(r: BestPracticesResult) -> Seq<char> {
    "# Google ADK Best Practices\n\n**Scenario:** "@ + r.scenario@ + "\n**Version:** "@
        + r.version@ + "\n\n"@ + section(
        "## Best Practices\n\n"@,
        r.practices@.map_values(|p: BestPractice| practice_section(p)),
    ) + section(
        "## Implementation Patterns\n\n"@,
        r.patterns@.map_values(|p: ImplementationPattern| pattern_section(p)),
    ) + references_section(views(r.documentation_refs@))
        + "---\n\n*These best practices are based on official Google ADK documentation and guidelines.*"@
}

fn append_practice(out: &mut String, p: &BestPractice)
    ensures
        final(out)@ == old(out)@ + practice_section(*p),
{
    let ghost start = out@;
    out.append("### ");
    out.append(p.title.as_str());
    out.append("\n\n**Category:** ");
    out.append(p.category.as_str());
    out.append("\n\n");
    out.append(p.description.as_str());
    out.append("\n\n");
    append_labelled_lines(out, "**Examples:**\n", &p.examples);
    out.append("**Reference:** [");
    out.append(p.documentation_ref.as_str());
    out.append("](");
    out.append(p.documentation_ref.as_str());
    out.append(")\n\n");
    out.append("---\n\n");
    assert(out@ =~= start + practice_section(*p));
}

fn append_code_examples(out: &mut String, examples: &Vec<CodeExample>)
    ensures
        final(out)@ == old(out)@ + code_examples_part(examples@),
{
    let ghost all = examples@.map_values(|e: CodeExample| code_example_section(e));
    if examples.len() == 0 {
        assert(final(out)@ =~= old(out)@ + code_examples_part(examples@));
        return;
    }
    out.append("**Code Examples:**\n\n");
    let ghost start = out@;
    let mut i: usize = 0;
    while i < examples.len()
        invariant
            all == examples@.map_values(|e: CodeExample| code_example_section(e)),
            i <= examples@.len(),
            out@ == start + concat_all(all.take(i as int)),
        decreases examples@.len() - i,
    {
        let e = &examples[i];
        let ghost before = out@;
        out.append("#### ");
        out.append(e.title.as_str());
        out.append("\n\n```");
        out.append(e.language.as_str());
        out.append("\n");
        out.append(e.code.as_str());
        out.append("\n```\n\n");
        out.append(e.explanation.as_str());
        out.append("\n\n");
        assert(out@ =~= before + code_example_section(*e));
        assert(all.take(i + 1).drop_last() =~= all.take(i as int));
        assert(all.take(i + 1).last() == code_example_section(*e));
        assert(out@ =~= start + concat_all(all.take(i + 1)));
        i = i + 1;
    }
    assert(all.take(examples@.len() as int) =~= all);
}

fn append_pattern(out: &mut String, p: &ImplementationPattern)
    ensures
        final(out)@ == old(out)@ + pattern_section(*p),
{
    let ghost start = out@;
    out.append("### ");
    out.append(p.name.as_str());
    out.append("\n\n");
    out.append(p.description.as_str());
    out.append("\n\n");
    append_labelled_lines(out, "**Use Cases:**\n", &p.use_cases);
    append_code_examples(out, &p.code_examples);
    append_labelled_lines(out, "**Related Practices:**\n", &p.related_practices);
    out.append("---\n\n");
    assert(out@ =~= start + pattern_section(*p));
}

/// The markdown of a best-practices result (see `practices_text`).
pub fn format_best_practices_result(result: &BestPracticesResult) -> (r: String)
    ensures
        r@ == practices_text(*result),
{
    let mut response = String::from_str("# Google ADK Best Practices\n\n**Scenario:** ");
    response.append(result.scenario.as_str());
    response.append("\n**Version:** ");
    response.append(result.version.as_str());
    response.append("\n\n");
    let ghost s0 = response@;
    let ghost ps = result.practices@.map_values(|p: BestPractice| practice_section(p));
    if result.practices.len() > 0 {
        response.append("## Best Practices\n\n");
        let ghost start = response@;
        let v = &result.practices;
        let mut i: usize = 0;
        while i < v.len()
            invariant
                ps == v@.map_values(|p: BestPractice| practice_section(p)),
                i <= v@.len(),
                response@ == start + concat_all(ps.take(i as int)),
            decreases v@.len() - i,
        {
            append_practice(&mut response, &v[i]);
            assert(ps.take(i + 1).drop_last() =~= ps.take(i as int));
            assert(ps.take(i + 1).last() == practice_section(v@[i as int]));
            assert(response@ =~= start + concat_all(ps.take(i + 1)));
            i = i + 1;
        }
        assert(ps.take(v@.len() as int) =~= ps);
    }
    let ghost s1 = response@;
    assert(s1 =~= s0 + section("## Best Practices\n\n"@, ps));
    let ghost qs = result.patterns@.map_values(|p: ImplementationPattern| pattern_section(p));
    if result.patterns.len() > 0 {
        response.append("## Implementation Patterns\n\n");
        let ghost start = response@;
        let v = &result.patterns;
        let mut i: usize = 0;
        while i < v.len()
            invariant
                qs == v@.map_values(|p: ImplementationPattern| pattern_section(p)),
                i <= v@.len(),
                response@ == start + concat_all(qs.take(i as int)),
            decreases v@.len() - i,
        {
            append_pattern(&mut response, &v[i]);
            assert(qs.take(i + 1).drop_last() =~= qs.take(i as int));
            assert(qs.take(i + 1).last() == pattern_section(v@[i as int]));
            assert(response@ =~= start + concat_all(qs.take(i + 1)));
            i = i + 1;
        }
        assert(qs.take(v@.len() as int) =~= qs);
    }
    let ghost s2 = response@;
    assert(s2 =~= s1 + section("## Implementation Patterns\n\n"@, qs));
    append_references(&mut response, &result.documentation_refs);
    response.append(
        "---\n\n*These best practices are based on official Google ADK documentation and guidelines.*",
    );
    assert(response@ =~= practices_text(*result));
    response
}

// ---------------------------------------------------------------------------
// Requests

/// Parameters of a documentation query.
#[derive(Debug)]
pub struct AdkQueryParams {
    /// The question or topic
    pub query: String,
    /// Version to answer for (the default when absent)
    pub version: Option<String>,
}

/// Parameters of a file review.
#[derive(Debug)]
pub struct ReviewRustFileParams {
    /// Path of the `.rs` file
    pub file_path: String,
    /// Its content
    pub file_content: String,
}

/// Parameters of an architecture validation.
#[derive(Debug)]
pub struct ValidateArchitectureParams {
    /// The architecture described in prose
    pub description: String,
    /// Code snippets to check as well
    pub code_snippets: Option<Vec<String>>,
    /// Version to validate against
    pub version: Option<String>,
}

/// Parameters of a best-practices request.
#[derive(Debug)]
pub struct GetBestPracticesParams {
    /// The development scenario
    pub scenario: String,
    /// A category that selects the practices instead of the scenario
    pub category: Option<String>,
    /// Version to answer for
    pub version: Option<String>,
}

pub open spec fn is_parameter_error(r: Result<String, ArkaftMcpError>, msg: Seq<char>) -> bool {
    r matches Err(ArkaftMcpError::ParameterValidation(m)) && m@ == msg
}

fn parameter_error(msg: &str) -> (r: Result<String, ArkaftMcpError>)
    ensures
        is_parameter_error(r, msg@),
{
    Err(ArkaftMcpError::parameter_validation(String::from_str(msg)))
}

fn as_str_opt(v: &Option<String>) -> (r: Option<&str>)
    ensures
        str_opt(r) == string_opt(*v),
{
    match v {
        Some(s) => Some(s.as_str()),
        None => None,
    }
}

/// The snippets of a request as text.
pub open spec fn snippets_of(v: Option<Vec<String>>) -> Seq<Seq<char>> {
    match v {
        Some(s) => views(s@),
        None => seq![],
    }
}

/// Answers a documentation query; a blank query is refused.
pub fn handle_adk_query(params: &AdkQueryParams) -> (r: Result<String, ArkaftMcpError>)
    ensures
        is_blank_seq(params.query@) ==> is_parameter_error(r, "Query parameter cannot be empty"@),
        !is_blank_seq(params.query@) ==> exists|e: DocumentationExpert|
            e.is_builtin() && r is Ok && r->Ok_0@ == #[trigger] e.query_answer(
                params.query@,
                string_opt(params.version),
            ),
{
    if is_blank(params.query.as_str()) {
        return parameter_error("Query parameter cannot be empty");
    }
    let expert = DocumentationExpert::new();
    let text = expert.query_documentation(params.query.as_str(), as_str_opt(&params.version));
    Ok(text)
}

/// Reviews a Rust file, given the parser's report on its content; a blank
/// path or content, or a path not ending in `.rs`, is refused.
pub fn handle_review_rust_file(
    params: &ReviewRustFileParams,
    parsed: Option<Vec<ItemFacts>>,
) -> (r: Result<String, ArkaftMcpError>)
    ensures
        is_blank_seq(params.file_path@) ==> is_parameter_error(
            r,
            "file_path parameter cannot be empty"@,
        ),
        !is_blank_seq(params.file_path@) && is_blank_seq(params.file_content@)
            ==> is_parameter_error(r, "file_content parameter cannot be empty"@),
        !is_blank_seq(params.file_path@) && !is_blank_seq(params.file_content@) && !seq_ends_with(
            params.file_path@,
            ".rs"@,
        ) ==> is_parameter_error(
            r,
            "Only .rs files can be reviewed. Provided file: "@ + params.file_path@,
        ),
        !is_blank_seq(params.file_path@) && !is_blank_seq(params.file_content@) && seq_ends_with(
            params.file_path@,
            ".rs"@,
        ) ==> exists|res: ReviewResult, a: RustCodeAnalyzer|
            #![trigger review_text(res), translation_spec(a)]
            a.describes(params.file_content@, parsed) && seq_view(res.translation_opportunities@)
                == translation_spec(a) && seq_view(res.architectural_improvements@)
                == architecture_spec(a) && seq_view(res.compliance_issues@) == compliance_spec(a)
                && seq_view(res.organization_suggestions@) == organization_spec(
                a,
                params.file_path@,
            ) && r is Ok && r->Ok_0@ == review_text(res),
{
    if is_blank(params.file_path.as_str()) {
        return parameter_error("file_path parameter cannot be empty");
    }
    if is_blank(params.file_content.as_str()) {
        return parameter_error("file_content parameter cannot be empty");
    }
    if !ends_with(params.file_path.as_str(), ".rs") {
        let mut msg = String::from_str("Only .rs files can be reviewed. Provided file: ");
        msg.append(params.file_path.as_str());
        return Err(ArkaftMcpError::parameter_validation(msg));
    }
    let engine = CodeReviewEngine::new();
    let result = engine.review_file(
        params.file_path.as_str(),
        params.file_content.as_str(),
        parsed,
    );
    let text = format_review_suggestions(&result);
    Ok(text)
}

/// Validates an architecture; a blank description is refused.
pub fn handle_validate_architecture(params: &ValidateArchitectureParams) -> (r: Result<
    String,
    ArkaftMcpError,
>)
    ensures
        is_blank_seq(params.description@) ==> is_parameter_error(
            r,
            "Description parameter cannot be empty"@,
        ),
        !is_blank_seq(params.description@) ==> exists|e: BestPracticesEnforcer|
            e.is_builtin() && r is Ok && r->Ok_0@ == #[trigger] validation_text(
                expected_validation(
                    e.validation_rules,
                    e.knowledge_base,
                    params.description@,
                    snippets_of(params.code_snippets),
                    e.resolve_opt(string_opt(params.version)),
                ),
            ),
{
    if is_blank(params.description.as_str()) {
        return parameter_error("Description parameter cannot be empty");
    }
    let enforcer = BestPracticesEnforcer::new();
    let snippets: Option<&[String]> = match &params.code_snippets {
        Some(v) => Some(v.as_slice()),
        None => None,
    };
    assert(snippet_views(snippets) == snippets_of(params.code_snippets));
    let result = enforcer.validate_architecture(
        params.description.as_str(),
        snippets,
        as_str_opt(&params.version),
    );
    let text = format_architecture_validation_result(&result);
    Ok(text)
}

/// Gives best practices for a scenario; a blank scenario is refused.
pub fn handle_get_best_practices(params: &GetBestPracticesParams) -> (r: Result<
    String,
    ArkaftMcpError,
>)
    ensures
        is_blank_seq(params.scenario@) ==> is_parameter_error(
            r,
            "Scenario parameter cannot be empty"@,
        ),
        !is_blank_seq(params.scenario@) ==> exists|e: BestPracticesEnforcer, res: BestPracticesResult|
            #![trigger practices_text(res), e.is_builtin()]
            e.is_builtin() && res.scenario@ == params.scenario@ && res.version@ == e.resolve_opt(
                string_opt(params.version),
            ) && same_practices(
                res.practices@,
                e.expected_practices(
                    params.scenario@,
                    string_opt(params.category),
                    e.resolve_opt(string_opt(params.version)),
                ),
            ) && same_patterns(
                res.patterns@,
                e.expected_patterns(params.scenario@, e.resolve_opt(string_opt(params.version))),
            ) && views(res.documentation_refs@) == practice_refs(
                e.knowledge_base,
                e.resolve_opt(string_opt(params.version)),
            ) && r is Ok && r->Ok_0@ == practices_text(res),
{
    if is_blank(params.scenario.as_str()) {
        return parameter_error("Scenario parameter cannot be empty");
    }
    let enforcer = BestPracticesEnforcer::new();
    let result = enforcer.get_best_practices(
        params.scenario.as_str(),
        as_str_opt(&params.category),
        as_str_opt(&params.version),
    );
    let text = format_best_practices_result(&result);
    Ok(text)
}

} // verus!
