//! The text of a review.
use vstd::prelude::*;
use crate::review::{
    ArchitecturalImprovement, ComplianceIssue, OrganizationSuggestion, ReviewResult,
    TranslationOpportunity,
};
use crate::text::{concat_all, decimal, decimal_string};

verus! {

pub open spec fn opportunity_text(o: TranslationOpportunity) -> Seq<char> {
    "**Line "@ + decimal(o.line as nat) + "**: "@ + o.description@ + "\n*Suggestion*: "@
        + o.suggestion@ + "\n\n"@
}

pub open spec fn improvement_text(i: ArchitecturalImprovement) -> Seq<char> {
    "**"@ + i.area@ + "**\n*Current*: "@ + i.current_pattern@ + "\n*Recommended*: "@
        + i.recommended_pattern@ + "\n*Rationale*: "@ + i.rationale@ + "\n\n"@
}

pub open spec fn issue_text(i: ComplianceIssue) -> Seq<char> {
    "**"@ + i.issue_type@ + "**: "@ + i.description@ + "\n*Fix*: "@ + i.fix_suggestion@ + "\n\n"@
}

pub open spec fn suggestion_text(s: OrganizationSuggestion) -> Seq<char> {
    "**"@ + s.suggestion_type@ + "**: "@ + s.description@ + "\n*Action*: "@ + s.action@
        + "\n\n"@
}

/// A section of entries under its heading, or nothing when there are none.
pub open spec fn section(heading: Seq<char>, entries: Seq<Seq<char>>) -> Seq<char> {
    if entries.len() == 0 {
        seq![]
    } else {
        heading + concat_all(entries)
    }
}

/// The text of a review: one section per non-empty kind of finding, or a
/// note that nothing was found.
pub open spec fn review_text(r: ReviewResult) -> Seq<char> {
    let o = r.translation_opportunities@.map_values(|x: TranslationOpportunity| opportunity_text(x));
    let a = r.architectural_improvements@.map_values(
        |x: ArchitecturalImprovement| improvement_text(x),
    );
    let c = r.compliance_issues@.map_values(|x: ComplianceIssue| issue_text(x));
    let s = r.organization_suggestions@.map_values(|x: OrganizationSuggestion| suggestion_text(x));
    "# Rust File Review Results\n\n"@ + section("## Translation Opportunities\n\n"@, o) + section(
        "## Architectural Improvements\n\n"@,
        a,
    ) + section("## ADK Compliance Issues\n\n"@, c) + section("## File Organization Suggestions\n\n"@, s) + if o.len()
        == 0 && a.len() == 0 && c.len() == 0 && s.len() == 0 {
        "No issues found. The code appears to follow good practices.\n"@
    } else {
        seq![]
    }
}

/// The review as markdown (see `review_text`).
pub fn format_review_suggestions(result: &ReviewResult) -> (r: String)
    ensures
        r@ == review_text(*result),
{
    let mut output = String::from_str("# Rust File Review Results\n\n");
    let ghost o = result.translation_opportunities@.map_values(
        |x: TranslationOpportunity| opportunity_text(x),
    );
    let ghost a = result.architectural_improvements@.map_values(
        |x: ArchitecturalImprovement| improvement_text(x),
    );
    let ghost c = result.compliance_issues@.map_values(|x: ComplianceIssue| issue_text(x));
    let ghost s = result.organization_suggestions@.map_values(
        |x: OrganizationSuggestion| suggestion_text(x),
    );
    let ghost s0 = output@;
    if result.translation_opportunities.len() > 0 {
        output.append("## Translation Opportunities\n\n");
        let ghost start = output@;
        let v = &result.translation_opportunities;
        let mut i: usize = 0;
        while i < v.len()
            invariant
                o == v@.map_values(|x: TranslationOpportunity| opportunity_text(x)),
                i <= v@.len(),
                output@ == start + concat_all(o.take(i as int)),
            decreases v@.len() - i,
        {
            let e = &v[i];
            output.append("**Line ");
            output.append(decimal_string(e.line as u64).as_str());
            output.append("**: ");
            output.append(e.description.as_str());
            output.append("\n*Suggestion*: ");
            output.append(e.suggestion.as_str());
            output.append("\n\n");
            assert(o.take(i + 1).drop_last() =~= o.take(i as int));
            assert(o.take(i + 1).last() == opportunity_text(*e));
            assert(output@ =~= start + concat_all(o.take(i + 1)));
            i = i + 1;
        }
        assert(o.take(v@.len() as int) =~= o);
    }
    let ghost s1 = output@;
    assert(s1 =~= s0 + section("## Translation Opportunities\n\n"@, o));
    if result.architectural_improvements.len() > 0 {
        output.append("## Architectural Improvements\n\n");
        let ghost start = output@;
        let v = &result.architectural_improvements;
        let mut i: usize = 0;
        while i < v.len()
            invariant
                a == v@.map_values(|x: ArchitecturalImprovement| improvement_text(x)),
                i <= v@.len(),
                output@ == start + concat_all(a.take(i as int)),
            decreases v@.len() - i,
        {
            let e = &v[i];
            output.append("**");
            output.append(e.area.as_str());
            output.append("**\n*Current*: ");
            output.append(e.current_pattern.as_str());
            output.append("\n*Recommended*: ");
            output.append(e.recommended_pattern.as_str());
            output.append("\n*Rationale*: ");
            output.append(e.rationale.as_str());
            output.append("\n\n");
            assert(a.take(i + 1).drop_last() =~= a.take(i as int));
            assert(a.take(i + 1).last() == improvement_text(*e));
            assert(output@ =~= start + concat_all(a.take(i + 1)));
            i = i + 1;
        }
        assert(a.take(v@.len() as int) =~= a);
    }
    let ghost s2 = output@;
    assert(s2 =~= s1 + section("## Architectural Improvements\n\n"@, a));
    if result.compliance_issues.len() > 0 {
        output.append("## ADK Compliance Issues\n\n");
        let ghost start = output@;
        let v = &result.compliance_issues;
        let mut i: usize = 0;
        while i < v.len()
            invariant
                c == v@.map_values(|x: ComplianceIssue| issue_text(x)),
                i <= v@.len(),
                output@ == start + concat_all(c.take(i as int)),
            decreases v@.len() - i,
        {
            let e = &v[i];
            output.append("**");
            output.append(e.issue_type.as_str());
            output.append("**: ");
            output.append(e.description.as_str());
            output.append("\n*Fix*: ");
            output.append(e.fix_suggestion.as_str());
            output.append("\n\n");
            assert(c.take(i + 1).drop_last() =~= c.take(i as int));
            assert(c.take(i + 1).last() == issue_text(*e));
            assert(output@ =~= start + concat_all(c.take(i + 1)));
            i = i + 1;
        }
        assert(c.take(v@.len() as int) =~= c);
    }
    let ghost s3 = output@;
    assert(s3 =~= s2 + section("## ADK Compliance Issues\n\n"@, c));
    if result.organization_suggestions.len() > 0 {
        output.append("## File Organization Suggestions\n\n");
        let ghost start = output@;
        let v = &result.organization_suggestions;
        let mut i: usize = 0;
        while i < v.len()
            invariant
                s == v@.map_values(|x: OrganizationSuggestion| suggestion_text(x)),
                i <= v@.len(),
                output@ == start + concat_all(s.take(i as int)),
            decreases v@.len() - i,
        {
            let e = &v[i];
            output.append("**");
            output.append(e.suggestion_type.as_str());
            output.append("**: ");
            output.append(e.description.as_str());
            output.append("\n*Action*: ");
            output.append(e.action.as_str());
            output.append("\n\n");
            assert(s.take(i + 1).drop_last() =~= s.take(i as int));
            assert(s.take(i + 1).last() == suggestion_text(*e));
            assert(output@ =~= start + concat_all(s.take(i + 1)));
            i = i + 1;
        }
        assert(s.take(v@.len() as int) =~= s);
    }
    let ghost s4 = output@;
    assert(s4 =~= s3 + section("## File Organization Suggestions\n\n"@, s));
    if result.translation_opportunities.len() == 0 && result.architectural_improvements.len() == 0
        && result.compliance_issues.len() == 0 && result.organization_suggestions.len() == 0 {
        output.append("No issues found. The code appears to follow good practices.\n");
    }
    assert(output@ =~= review_text(*result));
    output
}

} // verus!
