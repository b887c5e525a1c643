//! Version-aware documentation references and the text of query answers.
use vstd::prelude::*;
use crate::expert::adk_knowledge::{
    find_entry, lookup, views, AdkKnowledgeBase, ConceptInfo, DocumentationUrls,
};
use crate::expert::adk_knowledge::index_of;
use crate::text::{
    append_bullets, bullet_items, copy_strings, joined, lower_of, lowercase, seq_contains,
};

verus! {

/// The five built-in URLs, in `all_urls` order.
pub open spec fn standard_url_list() -> Seq<Seq<char>> {
    seq![
        "https://google.github.io/adk-docs/get-started/quickstart/"@,
        "https://google.github.io/adk-docs/api/"@,
        "https://google.github.io/adk-docs/tutorials/"@,
        "https://google.github.io/adk-docs/best-practices/"@,
        "https://google.github.io/adk-docs/migration/"@,
    ]
}

proof fn lemma_standard_all_urls(u: DocumentationUrls)
    requires
        u.is_standard(),
    ensures
        views(u.all_urls()) == standard_url_list(),
{
    assert(views(u.api_reference@).len() == u.api_reference@.len());
    assert(views(u.tutorials@).len() == u.tutorials@.len());
    assert(views(u.best_practices@).len() == u.best_practices@.len());
    assert(views(u.migration_guides@).len() == u.migration_guides@.len());
    assert(u.api_reference@.len() == 1);
    assert(u.tutorials@.len() == 1);
    assert(u.best_practices@.len() == 1);
    assert(u.migration_guides@.len() == 1);
    assert(views(u.api_reference@)[0] == u.api_reference@[0]@);
    assert(views(u.tutorials@)[0] == u.tutorials@[0]@);
    assert(views(u.best_practices@)[0] == u.best_practices@[0]@);
    assert(views(u.migration_guides@)[0] == u.migration_guides@[0]@);
    assert(views(u.all_urls()) =~= standard_url_list());
}

/// The built-in URLs of one category, named case-insensitively; every
/// built-in URL for an unknown category.
pub open spec fn standard_category_urls(category: Seq<char>) -> Seq<Seq<char>> {
    let c = lower_of(category);
    if c == "quickstart"@ {
        seq![standard_url_list()[0]]
    } else if c == "api"@ || c == "reference"@ {
        seq![standard_url_list()[1]]
    } else if c == "tutorials"@ || c == "guides"@ {
        seq![standard_url_list()[2]]
    } else if c == "best_practices"@ || c == "practices"@ {
        seq![standard_url_list()[3]]
    } else if c == "migration"@ {
        seq![standard_url_list()[4]]
    } else {
        standard_url_list()
    }
}

proof fn lemma_standard_category_urls(u: DocumentationUrls, category: Seq<char>)
    requires
        u.is_standard(),
    ensures
        views(u.urls_for_category(category)) == standard_category_urls(category),
{
    lemma_standard_all_urls(u);
    assert(views(seq![u.quickstart]) =~= seq![standard_url_list()[0]]);
    assert(views(u.api_reference@) =~= seq![standard_url_list()[1]]);
    assert(views(u.tutorials@) =~= seq![standard_url_list()[2]]);
    assert(views(u.best_practices@) =~= seq![standard_url_list()[3]]);
    assert(views(u.migration_guides@) =~= seq![standard_url_list()[4]]);
}

/// References drawn from a knowledge base.
pub struct DocumentationReferenceGenerator {
    pub knowledge_base: AdkKnowledgeBase,
}

impl DocumentationReferenceGenerator {
    /// All URLs of the bundle for `version`, or the built-in URLs when no
    /// bundle is found.
    pub open spec fn official_refs(&self, version: Option<&str>) -> Seq<Seq<char>> {
        self.official_refs_for(self.knowledge_base.effective_version(version))
    }

    /// All URLs of the bundle for an explicit version.
    pub open spec fn official_refs_for(&self, version: Seq<char>) -> Seq<Seq<char>> {
        match self.knowledge_base.docs_for(version) {
            Some(d) => views(d.official_urls.all_urls()),
            None => standard_url_list(),
        }
    }

    /// A generator over the given knowledge base.
    pub fn new(knowledge_base: AdkKnowledgeBase) -> (r: Self)
        ensures
            r.knowledge_base == knowledge_base,
    {
        DocumentationReferenceGenerator { knowledge_base }
    }

    /// Every official URL for `version` (see `official_refs`).
    pub fn generate_official_references(&self, version: Option<&str>) -> (r: Vec<String>)
        ensures
            views(r@) == self.official_refs(version),
    {
        match self.knowledge_base.get_official_urls(version) {
            Some(urls) => urls.get_all_urls(),
            None => {
                let urls = DocumentationUrls::new();
                proof {
                    lemma_standard_all_urls(urls);
                }
                urls.get_all_urls()
            },
        }
    }

    /// The URLs of one category for `version`; the built-in URL set stands
    /// in when no bundle is found.
    pub open spec fn category_refs(&self, category: Seq<char>, version: Option<&str>) -> Seq<
        Seq<char>,
    > {
        self.category_refs_for(category, self.knowledge_base.effective_version(version))
    }

    /// The URLs of one category for an explicit version.
    pub open spec fn category_refs_for(&self, category: Seq<char>, version: Seq<char>) -> Seq<
        Seq<char>,
    > {
        match self.knowledge_base.docs_for(version) {
            Some(d) => views(d.official_urls.urls_for_category(category)),
            None => standard_category_urls(category),
        }
    }

    /// The URLs of one category for `version` (see `category_refs`).
    pub fn generate_category_references(&self, category: &str, version: Option<&str>) -> (r: Vec<
        String,
    >)
        ensures
            views(r@) == self.category_refs(category@, version),
    {
        match self.knowledge_base.get_official_urls(version) {
            Some(urls) => urls.get_urls_by_category(category),
            None => {
                let urls = DocumentationUrls::new();
                proof {
                    lemma_standard_category_urls(urls, category@);
                }
                urls.get_urls_by_category(category)
            },
        }
    }

    /// The references of the concept stored under `concept_name`, or every
    /// official URL when there is no such concept.
    pub fn generate_concept_references(&self, concept_name: &str, version: Option<&str>) -> (r:
        Vec<String>)
        ensures
            views(r@) == (match self.knowledge_base.docs_for(
                self.knowledge_base.effective_version(version),
            ) {
                Some(d) => match lookup(d.concepts@, concept_name@) {
                    Some(c) => views(c.documentation_refs@),
                    None => self.official_refs(version),
                },
                None => self.official_refs(version),
            }),
    {
        let version_str = match version {
            Some(v) => v,
            None => self.knowledge_base.default_version.as_str(),
        };
        match self.knowledge_base.get_version_docs(version_str) {
            Some(docs) => match find_entry(&docs.concepts, concept_name) {
                Some(i) => {
                    return copy_strings(&docs.concepts[i].1.documentation_refs);
                },
                None => {},
            },
            None => {},
        }
        self.generate_official_references(version)
    }
}

/// A readable title for a documentation URL.
pub open spec fn url_title(url: Seq<char>) -> Seq<char> {
    if seq_contains(url, "quickstart"@) {
        "Google ADK Quickstart Guide"@
    } else if seq_contains(url, "api"@) {
        "Google ADK API Reference"@
    } else if seq_contains(url, "tutorials"@) {
        "Google ADK Tutorials"@
    } else if seq_contains(url, "best-practices"@) {
        "Google ADK Best Practices"@
    } else if seq_contains(url, "migration"@) {
        "Google ADK Migration Guide"@
    } else {
        "Google ADK Documentation"@
    }
}

/// A markdown link line for a URL.
pub open spec fn link_item(url: Seq<char>) -> Seq<char> {
    "- ["@ + url_title(url) + "]("@ + url + ")"@
}

/// The link lines of the URLs, one per line.
pub open spec fn links_text(urls: Seq<Seq<char>>) -> Seq<char> {
    joined(urls.map_values(|u: Seq<char>| link_item(u)), "\n"@)
}

pub open spec fn footer(version: Seq<char>) -> Seq<char> {
    "*Information based on official Google ADK documentation (version: "@ + version + ")*"@
}

/// The text of a documentation answer.
pub open spec fn documentation_text(
    query: Seq<char>,
    content: Seq<char>,
    version: Seq<char>,
    references: Seq<Seq<char>>,
) -> Seq<char> {
    "## Google ADK Documentation Query: "@ + query + "\n\n**Version:** "@ + version + "\n\n"@
        + content + "\n\n### Official References:\n"@ + links_text(references) + "\n\n"@
        + footer(version)
}

/// An optional titled list: empty when there are no items.
pub open spec fn titled_list(title: Seq<char>, items: Seq<Seq<char>>) -> Seq<char> {
    if items.len() == 0 {
        seq![]
    } else {
        "\n\n### "@ + title + ":\n"@ + joined(bullet_items(items), "\n"@)
    }
}

/// The text of a concept answer.
pub open spec fn concept_text(c: ConceptInfo, version: Seq<char>) -> Seq<char> {
    "## "@ + c.name@ + "\n\n**Version:** "@ + version + "\n\n"@ + c.description@ + titled_list(
        "Examples"@,
        views(c.examples@),
    ) + titled_list("Related Concepts"@, views(c.related_concepts@))
        + "\n\n### Official References:\n"@ + links_text(views(c.documentation_refs@)) + "\n\n"@
        + footer(version)
}

/// The title of a URL (see `url_title`).
pub fn extract_url_title(url: &str) -> (r: String)
    ensures
        r@ == url_title(url@),
{
    if crate::text::contains(url, "quickstart") {
        String::from_str("Google ADK Quickstart Guide")
    } else if crate::text::contains(url, "api") {
        String::from_str("Google ADK API Reference")
    } else if crate::text::contains(url, "tutorials") {
        String::from_str("Google ADK Tutorials")
    } else if crate::text::contains(url, "best-practices") {
        String::from_str("Google ADK Best Practices")
    } else if crate::text::contains(url, "migration") {
        String::from_str("Google ADK Migration Guide")
    } else {
        String::from_str("Google ADK Documentation")
    }
}

/// Appends the link lines of `urls` (see `links_text`).
pub fn append_links(out: &mut String, urls: &Vec<String>)
    ensures
        final(out)@ == old(out)@ + links_text(views(urls@)),
{
    let ghost start = out@;
    let ghost all = views(urls@).map_values(|u: Seq<char>| link_item(u));
    let mut i: usize = 0;
    while i < urls.len()
        invariant
            all == views(urls@).map_values(|u: Seq<char>| link_item(u)),
            i <= urls@.len(),
            out@ == start + joined(all.take(i as int), "\n"@),
        decreases urls@.len() - i,
    {
        if i > 0 {
            out.append("\n");
        }
        let title = extract_url_title(urls[i].as_str());
        out.append("- [");
        out.append(title.as_str());
        out.append("](");
        out.append(urls[i].as_str());
        out.append(")");
        proof {
            assert(all.take(i + 1).drop_last() =~= all.take(i as int));
            assert(all.take(i + 1).last() == link_item(urls@[i as int]@));
            if i == 0 {
                assert(all.take(1).len() == 1);
            }
            assert(out@ =~= start + joined(all.take(i + 1), "\n"@));
        }
        i = i + 1;
    }
    assert(all.take(urls@.len() as int) =~= all);
}

fn append_footer(out: &mut String, version: &str)
    ensures
        final(out)@ == old(out)@ + footer(version@),
{
    out.append("*Information based on official Google ADK documentation (version: ");
    out.append(version);
    out.append(")*");
    assert(final(out)@ =~= old(out)@ + footer(version@));
}

/// A documentation answer with its references (see `documentation_text`).
pub fn format_documentation_response(
    query: &str,
    content: &str,
    version: &str,
    references: &Vec<String>,
) -> (r: String)
    ensures
        r@ == documentation_text(query@, content@, version@, views(references@)),
{
    let mut out = String::from_str("## Google ADK Documentation Query: ");
    out.append(query);
    out.append("\n\n**Version:** ");
    out.append(version);
    out.append("\n\n");
    out.append(content);
    out.append("\n\n### Official References:\n");
    append_links(&mut out, references);
    out.append("\n\n");
    append_footer(&mut out, version);
    assert(out@ =~= documentation_text(query@, content@, version@, views(references@)));
    out
}

fn append_titled_list(out: &mut String, title: &str, items: &Vec<String>)
    ensures
        final(out)@ == old(out)@ + titled_list(title@, views(items@)),
{
    if items.len() > 0 {
        out.append("\n\n### ");
        out.append(title);
        out.append(":\n");
        append_bullets(out, items);
        assert(final(out)@ =~= old(out)@ + titled_list(title@, views(items@)));
    } else {
        assert(titled_list(title@, views(items@)) =~= seq![]);
        assert(final(out)@ =~= old(out)@ + titled_list(title@, views(items@)));
    }
}

/// A concept answer with its examples, related concepts and references
/// (see `concept_text`).
pub fn format_concept_response(concept: &ConceptInfo, version: &str) -> (r: String)
    ensures
        r@ == concept_text(*concept, version@),
{
    let mut out = String::from_str("## ");
    out.append(concept.name.as_str());
    out.append("\n\n**Version:** ");
    out.append(version);
    out.append("\n\n");
    out.append(concept.description.as_str());
    append_titled_list(&mut out, "Examples", &concept.examples);
    append_titled_list(&mut out, "Related Concepts", &concept.related_concepts);
    out.append("\n\n### Official References:\n");
    append_links(&mut out, &concept.documentation_refs);
    out.append("\n\n");
    append_footer(&mut out, version);
    assert(out@ =~= concept_text(*concept, version@));
    out
}

/// `s` without repeated entries, first occurrences kept in order.
pub open spec fn dedup(s: Seq<Seq<char>>) -> Seq<Seq<char>>
    decreases s.len(),
{
    if s.len() == 0 {
        seq![]
    } else {
        let r = dedup(s.drop_last());
        if r.contains(s.last()) {
            r
        } else {
            r.push(s.last())
        }
    }
}

/// The quickstart URL of the version's bundle, then the API, tutorial and
/// best-practice URLs that the query asks about (by the words "api";
/// "tutorial" or "guide"; "best" or "practice", ignoring case).
pub open spec fn query_link_candidates(
    query: Seq<char>,
    version: Seq<char>,
    kb: AdkKnowledgeBase,
) -> Seq<Seq<char>> {
    let q = lower_of(query);
    match kb.docs_for(version) {
        Some(d) => {
            let u = d.official_urls;
            views(
                seq![u.quickstart] + (if seq_contains(q, "api"@) {
                    u.api_reference@
                } else {
                    seq![]
                }) + (if seq_contains(q, "tutorial"@) || seq_contains(q, "guide"@) {
                    u.tutorials@
                } else {
                    seq![]
                }) + (if seq_contains(q, "best"@) || seq_contains(q, "practice"@) {
                    u.best_practices@
                } else {
                    seq![]
                }),
            )
        },
        None => seq![],
    }
}

/// Links for a query, without repeats (see `query_link_candidates`).
pub fn generate_comprehensive_links(query: &str, version: &str, knowledge_base: &AdkKnowledgeBase) -> (r:
    Vec<String>)
    ensures
        views(r@) == dedup(query_link_candidates(query@, version@, *knowledge_base)),
{
    let mut links: Vec<String> = Vec::new();
    let ghost no: Seq<String> = seq![];
    match knowledge_base.get_official_urls(Some(version)) {
        Some(urls) => {
            let q = lowercase(query);
            links.push(urls.quickstart.clone());
            let ghost mut expect: Seq<String> = seq![urls.quickstart];
            if crate::text::contains(q.as_str(), "api") {
                crate::text::extend_strings(&mut links, &urls.api_reference);
                proof { expect = expect + urls.api_reference@; }
            } else {
                proof { expect = expect + no; }
            }
            if crate::text::contains(q.as_str(), "tutorial") || crate::text::contains(
                q.as_str(),
                "guide",
            ) {
                crate::text::extend_strings(&mut links, &urls.tutorials);
                proof { expect = expect + urls.tutorials@; }
            } else {
                proof { expect = expect + no; }
            }
            if crate::text::contains(q.as_str(), "best") || crate::text::contains(
                q.as_str(),
                "practice",
            ) {
                crate::text::extend_strings(&mut links, &urls.best_practices);
                proof { expect = expect + urls.best_practices@; }
            } else {
                proof { expect = expect + no; }
            }
            assert(links@ =~= expect);
        },
        None => {},
    }
    let ghost cands = views(links@);
    assert(cands == query_link_candidates(query@, version@, *knowledge_base));
    let mut unique_links: Vec<String> = Vec::new();
    let mut i: usize = 0;
    while i < links.len()
        invariant
            cands == views(links@),
            i <= links@.len(),
            views(unique_links@) == dedup(cands.take(i as int)),
        decreases links@.len() - i,
    {
        assert(cands.take(i + 1).drop_last() =~= cands.take(i as int));
        assert(cands.take(i + 1).last() == links@[i as int]@);
        let ghost u = views(unique_links@);
        match index_of(&unique_links, links[i].as_str()) {
            Some(k) => {
                assert(u[k as int] == links@[i as int]@);
                assert(u.contains(links@[i as int]@));
            },
            None => {
                assert(!u.contains(links@[i as int]@)) by {
                    if u.contains(links@[i as int]@) {
                        let k = choose|k: int| 0 <= k < u.len() && u[k] == links@[i as int]@;
                        assert(unique_links@[k]@ == links@[i as int]@);
                    }
                }
                unique_links.push(links[i].clone());
                assert(views(unique_links@) =~= u.push(links@[i as int]@));
            },
        }
        i = i + 1;
    }
    assert(cands.take(links@.len() as int) =~= cands);
    unique_links
}

} // verus!
