//! Documentation expertise: the knowledge base, the rule engine and the
//! answers built on them.
use vstd::prelude::*;

pub mod adk_knowledge;
pub mod best_practices;
pub mod documentation;

use crate::expert::adk_knowledge::{
    concept_hits, derefs, lookup, practices_in, views, AdkKnowledgeBase, BestPractice,
    CodeExample, ImplementationPattern, VersionConfig,
};
use crate::expert::documentation::{
    concept_text, dedup, documentation_text, format_concept_response,
    format_documentation_response, generate_comprehensive_links, query_link_candidates,
    DocumentationReferenceGenerator,
};
use crate::text::{append_bullets, bullet_items, joined, str_opt};

verus! {

/// Answers documentation questions from a knowledge base.
pub struct DocumentationExpert {
    pub knowledge_base: AdkKnowledgeBase,
    pub reference_generator: DocumentationReferenceGenerator,
}

/// The general answer for a query with no matching concept.
pub open spec fn query_content(query: Seq<char>, version: Seq<char>) -> Seq<char> {
    "Based on the official Google ADK documentation (version "@ + version
        + "), here's information about '"@ + query
        + "':\n\nThis query is processed using the comprehensive ADK knowledge base with version-aware information retrieval. The system provides accurate information with official documentation references and implementation guidance following Google ADK best practices.\n\nFor detailed information, please refer to the official documentation links provided below."@
}

/// One practice as a markdown section.
pub open spec fn practice_block(p: BestPractice) -> Seq<char> {
    "### "@ + p.title@ + "\n\n**Category:** "@ + p.category@ + "\n\n"@ + p.description@
        + "\n\n**Examples:**\n"@ + joined(bullet_items(views(p.examples@)), "\n"@)
        + "\n\n**Reference:** ["@ + p.documentation_ref@ + "]("@ + p.documentation_ref@ + ")"@
}

pub open spec fn practice_blocks(ps: Seq<BestPractice>) -> Seq<char> {
    joined(ps.map_values(|p: BestPractice| practice_block(p)), "\n\n---\n\n"@)
}

/// One code example as a markdown section.
pub open spec fn example_block(e: CodeExample) -> Seq<char> {
    "#### "@ + e.title@ + "\n\n```"@ + e.language@ + "\n"@ + e.code@ + "\n```\n\n"@
        + e.explanation@
}

pub open spec fn example_blocks(es: Seq<CodeExample>) -> Seq<char> {
    joined(es.map_values(|e: CodeExample| example_block(e)), "\n\n"@)
}

/// The body of a pattern answer.
pub open spec fn pattern_content(p: ImplementationPattern) -> Seq<char> {
    "### "@ + p.name@ + "\n\n"@ + p.description@ + "\n\n**Use Cases:**\n"@ + joined(
        bullet_items(views(p.use_cases@)),
        "\n"@,
    ) + "\n\n**Examples:**\n\n"@ + example_blocks(p.code_examples@)
        + "\n\n**Related Practices:**\n"@ + joined(bullet_items(views(p.related_practices@)), "\n"@)
}

impl DocumentationExpert {
    /// The version a request means: an alias resolved, or the default.
    pub open spec fn resolved_version(&self, version: Option<Seq<char>>) -> Seq<char> {
        match version {
            Some(v) => self.knowledge_base.version_config.resolve_spec(v),
            None => self.knowledge_base.default_version@,
        }
    }

    /// The answer to a query: the first matching concept, else the general
    /// answer with links chosen by the query's words.
    pub open spec fn query_answer(&self, query: Seq<char>, version: Option<Seq<char>>) -> Seq<char> {
        let v = self.resolved_version(version);
        let kb = self.knowledge_base;
        let hits = match kb.docs_for(v) {
            Some(d) => concept_hits(d.concepts@, query),
            None => seq![],
        };
        if hits.len() > 0 {
            concept_text(hits[0], v)
        } else {
            documentation_text(
                query,
                query_content(query, v),
                v,
                dedup(query_link_candidates(query, v, kb)),
            )
        }
    }

    /// The practices of a category (ignoring ASCII case), or all practices.
    pub open spec fn selected_practices(&self, category: Option<Seq<char>>, version: Seq<char>) -> Seq<
        BestPractice,
    > {
        match self.knowledge_base.docs_for(version) {
            Some(d) => match category {
                Some(c) => practices_in(d.best_practices@, c),
                None => d.best_practices@,
            },
            None => seq![],
        }
    }

    /// The best-practices answer for a category.
    pub open spec fn practices_answer(
        &self,
        category: Option<Seq<char>>,
        version: Option<Seq<char>>,
    ) -> Seq<
        char,
    > {
        let v = self.resolved_version(version);
        let ps = self.selected_practices(category, v);
        let label = match category {
            Some(c) => c,
            None => "all"@,
        };
        let title = match category {
            Some(c) => "Best Practices - "@ + c,
            None => "Best Practices"@,
        };
        if ps.len() == 0 {
            "No best practices found for category '"@ + label + "' in version "@ + v
                + ". Please refer to the official documentation for the latest guidelines."@
        } else {
            documentation_text(
                title,
                practice_blocks(ps),
                v,
                self.reference_generator.category_refs_for("best_practices"@, v),
            )
        }
    }

    /// The answer for an implementation pattern.
    pub open spec fn pattern_answer(&self, pattern_name: Seq<char>, version: Option<Seq<char>>) -> Seq<
        char,
    > {
        let v = self.resolved_version(version);
        let found = match self.knowledge_base.docs_for(v) {
            Some(d) => lookup(d.implementation_patterns@, pattern_name),
            None => None,
        };
        match found {
            Some(p) => documentation_text(
                "Implementation Pattern: "@ + pattern_name,
                pattern_content(p),
                v,
                self.reference_generator.official_refs_for(v),
            ),
            None => "Implementation pattern '"@ + pattern_name + "' not found for version "@ + v
                + ". Please refer to the official documentation for available patterns."@,
        }
    }

    /// Both knowledge bases are the built-in one.
    pub open spec fn is_builtin(&self) -> bool {
        &&& self.knowledge_base.holds_builtin_docs()
        &&& self.knowledge_base.default_version@ == "1.0.0"@
        &&& self.knowledge_base.version_config.is_builtin()
        &&& self.reference_generator.knowledge_base.holds_builtin_docs()
        &&& self.reference_generator.knowledge_base.default_version@ == "1.0.0"@
        &&& self.reference_generator.knowledge_base.version_config.is_builtin()
    }

    /// An expert over the built-in knowledge.
    pub fn new() -> (r: Self)
        ensures
            r.is_builtin(),
            r.knowledge_base.holds_builtin_docs(),
            r.knowledge_base.default_version@ == "1.0.0"@,
            r.reference_generator.knowledge_base.holds_builtin_docs(),
            r.reference_generator.knowledge_base.default_version@ == "1.0.0"@,
    {
        let knowledge_base = AdkKnowledgeBase::new();
        let reference_generator = DocumentationReferenceGenerator::new(AdkKnowledgeBase::new());
        DocumentationExpert { knowledge_base, reference_generator }
    }

    /// An expert over the built-in knowledge with the given version
    /// configuration.
    pub fn with_version_config(config: VersionConfig) -> (r: Self)
        ensures
            r.knowledge_base.holds_builtin_docs(),
            r.knowledge_base.version_config == config,
            r.knowledge_base.default_version@ == config.resolve_spec("latest"@),
            r.reference_generator.knowledge_base.holds_builtin_docs(),
            r.reference_generator.knowledge_base.version_config.same_as(config),
            r.reference_generator.knowledge_base.default_version@ == config.resolve_spec(
                "latest"@,
            ),
    {
        let copy = config.duplicate();
        let knowledge_base = AdkKnowledgeBase::with_version_config(config);
        let reference_generator = DocumentationReferenceGenerator::new(
            AdkKnowledgeBase::with_version_config(copy),
        );
        DocumentationExpert { knowledge_base, reference_generator }
    }

    fn resolve(&self, version: Option<&str>) -> (r: String)
        ensures
            r@ == self.resolved_version(str_opt(version)),
    {
        match version {
            Some(v) => self.knowledge_base.resolve_version(v),
            None => self.knowledge_base.default_version.clone(),
        }
    }

    /// Answers a documentation query (see `query_answer`).
    pub fn query_documentation(&self, query: &str, version: Option<&str>) -> (r: String)
        ensures
            r@ == self.query_answer(query@, str_opt(version)),
    {
        let resolved_version = self.resolve(version);
        let matching_concepts = self.knowledge_base.search_concepts(
            query,
            Some(resolved_version.as_str()),
        );
        if matching_concepts.len() > 0 {
            let concept = matching_concepts[0];
            assert(derefs(matching_concepts@)[0] == *matching_concepts@[0]);
            return format_concept_response(concept, resolved_version.as_str());
        }
        let content = self.generate_query_response(query, resolved_version.as_str());
        let references = generate_comprehensive_links(
            query,
            resolved_version.as_str(),
            &self.knowledge_base,
        );
        format_documentation_response(
            query,
            content.as_str(),
            resolved_version.as_str(),
            &references,
        )
    }

    /// The known versions.
    pub fn get_available_versions(&self) -> (r: Vec<String>)
        ensures
            r@ == self.knowledge_base.version_config.available_versions@,
    {
        self.knowledge_base.get_available_versions()
    }

    /// The best practices of a category, or all of them, as text (see
    /// `practices_answer`).
    pub fn get_best_practices(&self, category: Option<&str>, version: Option<&str>) -> (r: String)
        ensures
            r@ == self.practices_answer(str_opt(category), str_opt(version)),
    {
        let resolved_version = self.resolve(version);
        let ghost v = resolved_version@;
        let mut practices: Vec<&BestPractice> = Vec::new();
        match category {
            Some(cat) => {
                practices = self.knowledge_base.get_best_practices_by_category(
                    cat,
                    Some(resolved_version.as_str()),
                );
            },
            None => match self.knowledge_base.get_version_docs(resolved_version.as_str()) {
                Some(docs) => {
                    let mut i: usize = 0;
                    while i < docs.best_practices.len()
                        invariant
                            i <= docs.best_practices@.len(),
                            derefs(practices@) == docs.best_practices@.take(i as int),
                        decreases docs.best_practices@.len() - i,
                    {
                        let ghost before = practices@;
                        practices.push(&docs.best_practices[i]);
                        assert(derefs(practices@) =~= derefs(before).push(
                            docs.best_practices@[i as int],
                        ));
                        assert(docs.best_practices@.take(i + 1) =~= docs.best_practices@.take(
                            i as int,
                        ).push(docs.best_practices@[i as int]));
                        i = i + 1;
                    }
                    assert(docs.best_practices@.take(docs.best_practices@.len() as int)
                        =~= docs.best_practices@);
                },
                None => {
                    assert(derefs(practices@) =~= seq![]);
                },
            },
        }
        assert(derefs(practices@) == self.selected_practices(str_opt(category), v));
        if practices.len() == 0 {
            let mut out = String::from_str("No best practices found for category '");
            match category {
                Some(c) => out.append(c),
                None => out.append("all"),
            }
            out.append("' in version ");
            out.append(resolved_version.as_str());
            out.append(". Please refer to the official documentation for the latest guidelines.");
            return out;
        }
        let mut content = String::new();
        let ghost all = derefs(practices@).map_values(|p: BestPractice| practice_block(p));
        let mut i: usize = 0;
        while i < practices.len()
            invariant
                all == derefs(practices@).map_values(|p: BestPractice| practice_block(p)),
                i <= practices@.len(),
                content@ == joined(all.take(i as int), "\n\n---\n\n"@),
            decreases practices@.len() - i,
        {
            if i > 0 {
                content.append("\n\n---\n\n");
            }
            let p = practices[i];
            let ghost before = content@;
            content.append("### ");
            content.append(p.title.as_str());
            content.append("\n\n**Category:** ");
            content.append(p.category.as_str());
            content.append("\n\n");
            content.append(p.description.as_str());
            content.append("\n\n**Examples:**\n");
            append_bullets(&mut content, &p.examples);
            content.append("\n\n**Reference:** [");
            content.append(p.documentation_ref.as_str());
            content.append("](");
            content.append(p.documentation_ref.as_str());
            content.append(")");
            proof {
                assert(derefs(practices@)[i as int] == *p);
                assert(content@ =~= before + practice_block(*p));
                assert(all.take(i + 1).drop_last() =~= all.take(i as int));
                assert(all.take(i + 1).last() == practice_block(*p));
                if i == 0 {
                    assert(all.take(1).len() == 1);
                }
                assert(content@ =~= joined(all.take(i + 1), "\n\n---\n\n"@));
            }
            i = i + 1;
        }
        assert(all.take(practices@.len() as int) =~= all);
        let references = self.reference_generator.generate_category_references(
            "best_practices",
            Some(resolved_version.as_str()),
        );
        let title = match category {
            Some(c) => {
                let mut t = String::from_str("Best Practices - ");
                t.append(c);
                t
            },
            None => String::from_str("Best Practices"),
        };
        format_documentation_response(
            title.as_str(),
            content.as_str(),
            resolved_version.as_str(),
            &references,
        )
    }

    /// An implementation pattern as text (see `pattern_answer`).
    pub fn get_implementation_pattern(&self, pattern_name: &str, version: Option<&str>) -> (r:
        String)
        ensures
            r@ == self.pattern_answer(pattern_name@, str_opt(version)),
    {
        let resolved_version = self.resolve(version);
        match self.knowledge_base.get_implementation_pattern(
            pattern_name,
            Some(resolved_version.as_str()),
        ) {
            Some(pattern) => {
                let mut content = String::from_str("### ");
                content.append(pattern.name.as_str());
                content.append("\n\n");
                content.append(pattern.description.as_str());
                content.append("\n\n**Use Cases:**\n");
                append_bullets(&mut content, &pattern.use_cases);
                content.append("\n\n**Examples:**\n\n");
                append_examples(&mut content, &pattern.code_examples);
                content.append("\n\n**Related Practices:**\n");
                append_bullets(&mut content, &pattern.related_practices);
                assert(content@ =~= pattern_content(*pattern));
                let references = self.reference_generator.generate_official_references(
                    Some(resolved_version.as_str()),
                );
                let mut title = String::from_str("Implementation Pattern: ");
                title.append(pattern_name);
                format_documentation_response(
                    title.as_str(),
                    content.as_str(),
                    resolved_version.as_str(),
                    &references,
                )
            },
            None => {
                let mut out = String::from_str("Implementation pattern '");
                out.append(pattern_name);
                out.append("' not found for version ");
                out.append(resolved_version.as_str());
                out.append(". Please refer to the official documentation for available patterns.");
                out
            },
        }
    }

    /// The general answer for a query (see `query_content`).
    fn generate_query_response(&self, query: &str, version: &str) -> (r: String)
        ensures
            r@ == query_content(query@, version@),
    {
        let mut out = String::from_str("Based on the official Google ADK documentation (version ");
        out.append(version);
        out.append("), here's information about '");
        out.append(query);
        out.append(
            "':\n\nThis query is processed using the comprehensive ADK knowledge base with version-aware information retrieval. The system provides accurate information with official documentation references and implementation guidance following Google ADK best practices.\n\nFor detailed information, please refer to the official documentation links provided below.",
        );
        out
    }
}

/// Appends the code examples as sections separated by blank lines.
fn append_examples(out: &mut String, examples: &Vec<CodeExample>)
    ensures
        final(out)@ == old(out)@ + example_blocks(examples@),
{
    let ghost start = out@;
    let ghost all = examples@.map_values(|e: CodeExample| example_block(e));
    let mut i: usize = 0;
    while i < examples.len()
        invariant
            all == examples@.map_values(|e: CodeExample| example_block(e)),
            i <= examples@.len(),
            out@ == start + joined(all.take(i as int), "\n\n"@),
        decreases examples@.len() - i,
    {
        if i > 0 {
            out.append("\n\n");
        }
        let e = &examples[i];
        out.append("#### ");
        out.append(e.title.as_str());
        out.append("\n\n```");
        out.append(e.language.as_str());
        out.append("\n");
        out.append(e.code.as_str());
        out.append("\n```\n\n");
        out.append(e.explanation.as_str());
        proof {
            assert(all.take(i + 1).drop_last() =~= all.take(i as int));
            assert(all.take(i + 1).last() == example_block(*e));
            if i == 0 {
                assert(all.take(1).len() == 1);
            }
            assert(out@ =~= start + joined(all.take(i + 1), "\n\n"@));
        }
        i = i + 1;
    }
    assert(all.take(examples@.len() as int) =~= all);
}

} // verus!
