//! Versioned knowledge base: documentation bundles keyed by version, with an
//! alias table that maps names such as "latest" to concrete versions.
use vstd::prelude::*;
use crate::text::{
    copy_strings, eq_ascii_case, eq_ignore_ascii_case, extend_strings, lower_of, lowercase,
    same_text, seq_contains,
};

verus! {

/// The value stored under the first entry whose key is `key`.
pub open spec fn lookup<T>(entries: Seq<(String, T)>, key: Seq<char>) -> Option<T>
    decreases entries.len(),
{
    if entries.len() == 0 {
        None
    } else if entries[0].0@ == key {
        Some(entries[0].1)
    } else {
        lookup(entries.drop_first(), key)
    }
}

/// No two entries share a key.
pub open spec fn keys_unique<T>(entries: Seq<(String, T)>) -> bool {
    forall|i: int, j: int|
        0 <= i < j < entries.len() ==> (#[trigger] entries[i]).0@ != (#[trigger] entries[j]).0@
}

proof fn lemma_lookup_none<T>(e: Seq<(String, T)>, key: Seq<char>)
    requires
        lookup(e, key) is None,
    ensures
        forall|i: int| 0 <= i < e.len() ==> (#[trigger] e[i]).0@ != key,
    decreases e.len(),
{
    if e.len() > 0 {
        lemma_lookup_none(e.drop_first(), key);
        assert forall|i: int| 0 <= i < e.len() implies (#[trigger] e[i]).0@ != key by {
            if i > 0 {
                assert(e.drop_first()[i - 1] == e[i]);
            }
        }
    }
}

/// Index of the first entry whose key is `key`.
pub fn find_entry<T>(entries: &Vec<(String, T)>, key: &str) -> (r: Option<usize>)
    ensures
        match r {
            Some(i) => i < entries@.len() && entries@[i as int].0@ == key@ && lookup(
                entries@,
                key@,
            ) == Some(entries@[i as int].1) && forall|j: int|
                0 <= j < i ==> #[trigger] entries@[j].0@ != key@,
            None => lookup(entries@, key@) is None,
        },
{
    let mut i: usize = 0;
    assert(entries@.subrange(0, entries@.len() as int) =~= entries@);
    while i < entries.len()
        invariant
            i <= entries@.len(),
            forall|j: int| 0 <= j < i ==> #[trigger] entries@[j].0@ != key@,
            lookup(entries@, key@) == lookup(
                entries@.subrange(i as int, entries@.len() as int),
                key@,
            ),
        decreases entries@.len() - i,
    {
        let ghost rest = entries@.subrange(i as int, entries@.len() as int);
        assert(rest[0] == entries@[i as int]);
        if same_text(entries[i].0.as_str(), key) {
            return Some(i);
        }
        assert(rest.drop_first() =~= entries@.subrange(i + 1, entries@.len() as int));
        i = i + 1;
    }
    None
}

/// Version management: default version, known versions and aliases.
#[derive(Clone, Debug)]
pub struct VersionConfig {
    /// Version used when a caller names none
    pub default_version: String,
    /// Known versions, in order of preference
    pub available_versions: Vec<String>,
    /// Alias name and the version it stands for (e.g. "stable" -> "1.2.0")
    pub version_aliases: Vec<(String, String)>,
    /// Whether newer versions are picked up automatically
    pub auto_update_enabled: bool,
}

impl VersionConfig {
    /// What `version` resolves to: its alias target, or itself.
    pub open spec fn resolve_spec(&self, version: Seq<char>) -> Seq<char> {
        match lookup(self.version_aliases@, version) {
            Some(target) => target@,
            None => version,
        }
    }

    /// The configuration with its built-in aliases; `configured_default` is
    /// the version named in the environment, if any.
    pub fn new(configured_default: Option<String>) -> (r: Self)
        ensures
            r.default_version@ == (match configured_default {
                Some(v) => v@,
                None => "latest"@,
            }),
            r.available_versions@.len() == 2,
            r.available_versions@[0]@ == "1.0.0"@,
            r.available_versions@[1]@ == "latest"@,
            r.version_aliases@.len() == 2,
            r.version_aliases@[0].0@ == "latest"@,
            r.version_aliases@[0].1@ == "1.0.0"@,
            r.version_aliases@[1].0@ == "stable"@,
            r.version_aliases@[1].1@ == "1.0.0"@,
            r.auto_update_enabled,
            keys_unique(r.version_aliases@),
    {
        proof {
            reveal_strlit("latest");
            reveal_strlit("stable");
        }
        assert("latest"@[0] != "stable"@[0]);
        let default_version = match configured_default {
            Some(v) => v,
            None => String::from_str("latest"),
        };
        let mut version_aliases: Vec<(String, String)> = Vec::new();
        version_aliases.push((String::from_str("latest"), String::from_str("1.0.0")));
        version_aliases.push((String::from_str("stable"), String::from_str("1.0.0")));
        let mut available_versions: Vec<String> = Vec::new();
        available_versions.push(String::from_str("1.0.0"));
        available_versions.push(String::from_str("latest"));
        VersionConfig {
            default_version,
            available_versions,
            version_aliases,
            auto_update_enabled: true,
        }
    }

    /// The built-in aliases and versions, with the given default.
    pub open spec fn is_builtin(&self) -> bool {
        &&& self.available_versions@.len() == 2
        &&& self.available_versions@[0]@ == "1.0.0"@
        &&& self.available_versions@[1]@ == "latest"@
        &&& self.version_aliases@.len() == 2
        &&& self.version_aliases@[0].0@ == "latest"@
        &&& self.version_aliases@[0].1@ == "1.0.0"@
        &&& self.version_aliases@[1].0@ == "stable"@
        &&& self.version_aliases@[1].1@ == "1.0.0"@
        &&& keys_unique(self.version_aliases@)
        &&& self.auto_update_enabled
    }

    /// Both configurations hold the same values.
    pub open spec fn same_as(&self, other: VersionConfig) -> bool {
        &&& self.default_version == other.default_version
        &&& self.available_versions@ == other.available_versions@
        &&& self.version_aliases@ == other.version_aliases@
        &&& self.auto_update_enabled == other.auto_update_enabled
    }

    /// A copy of this configuration.
    pub fn duplicate(&self) -> (r: Self)
        ensures
            r.same_as(*self),
    {
        let mut version_aliases: Vec<(String, String)> = Vec::new();
        let mut i: usize = 0;
        while i < self.version_aliases.len()
            invariant
                i <= self.version_aliases@.len(),
                version_aliases@ == self.version_aliases@.take(i as int),
            decreases self.version_aliases@.len() - i,
        {
            let entry = &self.version_aliases[i];
            version_aliases.push((entry.0.clone(), entry.1.clone()));
            assert(self.version_aliases@.take(i + 1) =~= self.version_aliases@.take(i as int).push(
                *entry,
            ));
            i = i + 1;
        }
        assert(self.version_aliases@.take(self.version_aliases@.len() as int)
            =~= self.version_aliases@);
        VersionConfig {
            default_version: self.default_version.clone(),
            available_versions: copy_strings(&self.available_versions),
            version_aliases,
            auto_update_enabled: self.auto_update_enabled,
        }
    }

    /// `version` is among the known versions, as written.
    pub open spec fn has_version(&self, version: Seq<char>) -> bool {
        exists|i: int|
            0 <= i < self.available_versions@.len() && #[trigger] self.available_versions@[i]@
                == version
    }

    /// Resolves an alias to its version; any other name stands for itself.
    pub fn resolve_version(&self, version: &str) -> (r: String)
        ensures
            r@ == self.resolve_spec(version@),
    {
        match find_entry(&self.version_aliases, version) {
            Some(i) => self.version_aliases[i].1.clone(),
            None => String::from_str(version),
        }
    }

    /// The version that `version` resolves to is among the known versions.
    pub fn is_version_available(&self, version: &str) -> (r: bool)
        ensures
            r == self.has_version(self.resolve_spec(version@)),
    {
        let resolved = self.resolve_version(version);
        index_of(&self.available_versions, resolved.as_str()).is_some()
    }

    /// Adds `version` to the known versions unless it is already there.
    pub fn add_version(&mut self, version: String)
        ensures
            final(self).default_version == old(self).default_version,
            final(self).version_aliases == old(self).version_aliases,
            final(self).auto_update_enabled == old(self).auto_update_enabled,
            final(self).available_versions@ == (if old(self).has_version(version@) {
                old(self).available_versions@
            } else {
                old(self).available_versions@.push(version)
            }),
    {
        if index_of(&self.available_versions, version.as_str()).is_none() {
            self.available_versions.push(version);
        }
    }

    /// Points `alias` at `target_version`, replacing an earlier target.
    pub fn set_alias(&mut self, alias: String, target_version: String)
        ensures
            final(self).default_version == old(self).default_version,
            final(self).available_versions == old(self).available_versions,
            final(self).auto_update_enabled == old(self).auto_update_enabled,
            lookup(final(self).version_aliases@, alias@) == Some(target_version),
            keys_unique(old(self).version_aliases@) ==> keys_unique(final(self).version_aliases@),
            forall|k: Seq<char>|
                k != alias@ ==> #[trigger] lookup(final(self).version_aliases@, k) == lookup(
                    old(self).version_aliases@,
                    k,
                ),
    {
        upsert(&mut self.version_aliases, alias, target_version);
    }
}

/// Stores `value` under `key`: replaces the first entry with that key, or
/// appends one.
pub fn upsert<T>(entries: &mut Vec<(String, T)>, key: String, value: T)
    ensures
        lookup(final(entries)@, key@) == Some(value),
        keys_unique(old(entries)@) ==> keys_unique(final(entries)@),
        forall|k: Seq<char>|
            k != key@ ==> #[trigger] lookup(final(entries)@, k) == lookup(old(entries)@, k),
{
    let ghost before = entries@;
    match find_entry(entries, key.as_str()) {
        Some(i) => {
            entries.set(i, (key, value));
            proof {
                lemma_lookup_after_set(before, i as int, entries@[i as int]);
                assert forall|a: int, b: int|
                    0 <= a < b < entries@.len() && keys_unique(before) implies (
                    #[trigger] entries@[a]).0@ != (#[trigger] entries@[b]).0@ by {
                    assert(entries@[a].0@ == before[a].0@);
                    assert(entries@[b].0@ == before[b].0@);
                }
            }
        },
        None => {
            entries.push((key, value));
            proof {
                lemma_lookup_after_push(before, entries@.last());
                lemma_lookup_none(before, entries@.last().0@);
                assert forall|i: int, j: int|
                    0 <= i < j < entries@.len() && keys_unique(before) implies (
                    #[trigger] entries@[i]).0@ != (#[trigger] entries@[j]).0@ by {
                    if j == entries@.len() - 1 {
                        assert(entries@[i] == before[i]);
                    } else {
                        assert(entries@[i] == before[i]);
                        assert(entries@[j] == before[j]);
                    }
                }
            }
        },
    }
}

proof fn lemma_lookup_after_set<T>(e: Seq<(String, T)>, i: int, entry: (String, T))
    requires
        0 <= i < e.len(),
        e[i].0@ == entry.0@,
        forall|j: int| 0 <= j < i ==> #[trigger] e[j].0@ != entry.0@,
    ensures
        lookup(e.update(i, entry), entry.0@) == Some(entry.1),
        forall|k: Seq<char>|
            k != entry.0@ ==> #[trigger] lookup(e.update(i, entry), k) == lookup(e, k),
    decreases e.len(),
{
    let u = e.update(i, entry);
    if i > 0 {
        assert(u.drop_first() =~= e.drop_first().update(i - 1, entry));
        assert forall|j: int| 0 <= j < i - 1 implies #[trigger] e.drop_first()[j].0@
            != entry.0@ by {
            assert(e.drop_first()[j] == e[j + 1]);
        }
        assert(e.drop_first()[i - 1] == e[i]);
        lemma_lookup_after_set(e.drop_first(), i - 1, entry);
        assert(u[0] == e[0]);
        assert(e[0].0@ != entry.0@);
        assert forall|k: Seq<char>| k != entry.0@ implies #[trigger] lookup(u, k) == lookup(
            e,
            k,
        ) by {
            if e[0].0@ != k {
                assert(lookup(u, k) == lookup(u.drop_first(), k));
                assert(lookup(e.drop_first().update(i - 1, entry), k) == lookup(
                    e.drop_first(),
                    k,
                ));
            }
        }
    } else {
        assert(u[0] == entry);
        assert forall|k: Seq<char>| k != entry.0@ implies #[trigger] lookup(u, k) == lookup(
            e,
            k,
        ) by {
            assert(u.drop_first() =~= e.drop_first());
        }
    }
}

proof fn lemma_lookup_after_push<T>(e: Seq<(String, T)>, entry: (String, T))
    requires
        lookup(e, entry.0@) is None,
    ensures
        lookup(e.push(entry), entry.0@) == Some(entry.1),
        forall|k: Seq<char>|
            k != entry.0@ ==> #[trigger] lookup(e.push(entry), k) == lookup(e, k),
    decreases e.len(),
{
    let p = e.push(entry);
    if e.len() > 0 {
        assert(p.drop_first() =~= e.drop_first().push(entry));
        assert(p[0] == e[0]);
        lemma_lookup_after_push(e.drop_first(), entry);
        assert forall|k: Seq<char>| k != entry.0@ implies #[trigger] lookup(p, k) == lookup(
            e,
            k,
        ) by {
            if e[0].0@ != k {
                assert(lookup(p, k) == lookup(p.drop_first(), k));
                assert(lookup(e.drop_first().push(entry), k) == lookup(e.drop_first(), k));
            }
        }
    } else {
        assert(p.drop_first() =~= e);
        assert(p[0] == entry);
    }
}

/// Index of the first string equal to `s`.
pub fn index_of(v: &Vec<String>, s: &str) -> (r: Option<usize>)
    ensures
        match r {
            Some(i) => i < v@.len() && v@[i as int]@ == s@,
            None => forall|i: int| 0 <= i < v@.len() ==> #[trigger] v@[i]@ != s@,
        },
{
    let mut i: usize = 0;
    while i < v.len()
        invariant
            i <= v@.len(),
            forall|k: int| 0 <= k < i ==> #[trigger] v@[k]@ != s@,
        decreases v@.len() - i,
    {
        if same_text(v[i].as_str(), s) {
            return Some(i);
        }
        i = i + 1;
    }
    None
}

} // verus!

verus! {

/// The references in `s`, followed.
pub open spec fn derefs<T>(s: Seq<&T>) -> Seq<T> {
    s.map_values(|x: &T| *x)
}

proof fn lemma_derefs_push<T>(s: Seq<&T>, x: &T)
    ensures
        derefs(s.push(x)) == derefs(s).push(*x),
{
    assert(derefs(s.push(x)) =~= derefs(s).push(*x));
}

/// Official documentation URLs, by category.
#[derive(Clone, Debug)]
pub struct DocumentationUrls {
    /// Main quickstart guide
    pub quickstart: String,
    /// API reference documentation
    pub api_reference: Vec<String>,
    /// Tutorial and guide URLs
    pub tutorials: Vec<String>,
    /// Best practices documentation
    pub best_practices: Vec<String>,
    /// Migration guides
    pub migration_guides: Vec<String>,
}

/// A concept, with examples and references.
#[derive(Clone, Debug)]
pub struct ConceptInfo {
    pub name: String,
    pub description: String,
    pub examples: Vec<String>,
    pub related_concepts: Vec<String>,
    pub documentation_refs: Vec<String>,
}

/// A best practice of one category.
#[derive(Clone, Debug)]
pub struct BestPractice {
    pub title: String,
    pub description: String,
    /// Category (architecture, performance, security, ...)
    pub category: String,
    pub examples: Vec<String>,
    pub documentation_ref: String,
}

/// An implementation pattern with its use cases and code examples.
#[derive(Clone, Debug)]
pub struct ImplementationPattern {
    pub name: String,
    pub description: String,
    pub use_cases: Vec<String>,
    pub code_examples: Vec<CodeExample>,
    pub related_practices: Vec<String>,
}

/// A code example with its context.
#[derive(Clone, Debug)]
pub struct CodeExample {
    pub title: String,
    pub language: String,
    pub code: String,
    pub explanation: String,
}

/// A feature of one version.
#[derive(Clone, Debug)]
pub struct VersionFeature {
    pub name: String,
    pub description: String,
    pub introduced_in: String,
    pub deprecated_in: Option<String>,
    pub migration_notes: Option<String>,
}

/// The documentation bundle of one version.
#[derive(Clone, Debug)]
pub struct VersionDocs {
    pub version: String,
    pub official_urls: DocumentationUrls,
    /// Concepts, keyed by identifier
    pub concepts: Vec<(String, ConceptInfo)>,
    pub best_practices: Vec<BestPractice>,
    /// Implementation patterns, keyed by identifier
    pub implementation_patterns: Vec<(String, ImplementationPattern)>,
    pub version_features: Vec<VersionFeature>,
}

pub open spec fn one(s: Seq<char>) -> Seq<Seq<char>> {
    seq![s]
}

pub open spec fn views(v: Seq<String>) -> Seq<Seq<char>> {
    v.map_values(|s: String| s@)
}

impl DocumentationUrls {
    /// The built-in URL set.
    pub open spec fn is_standard(&self) -> bool {
        &&& self.quickstart@ == "https://google.github.io/adk-docs/get-started/quickstart/"@
        &&& views(self.api_reference@) == one("https://google.github.io/adk-docs/api/"@)
        &&& views(self.tutorials@) == one("https://google.github.io/adk-docs/tutorials/"@)
        &&& views(self.best_practices@) == one(
            "https://google.github.io/adk-docs/best-practices/"@,
        )
        &&& views(self.migration_guides@) == one("https://google.github.io/adk-docs/migration/"@)
    }

    /// Every URL: quickstart, API, tutorials, best practices, migration.
    pub open spec fn all_urls(&self) -> Seq<String> {
        seq![self.quickstart] + self.api_reference@ + self.tutorials@ + self.best_practices@
            + self.migration_guides@
    }

    /// The URLs of a category, named case-insensitively; every URL for an
    /// unknown category.
    pub open spec fn urls_for_category(&self, category: Seq<char>) -> Seq<String> {
        self.urls_for_folded_category(lower_of(category))
    }

    /// The URLs of a category already in lowercase; every URL for an
    /// unknown category.
    pub open spec fn urls_for_folded_category(&self, c: Seq<char>) -> Seq<String> {
        if c == "quickstart"@ {
            seq![self.quickstart]
        } else if c == "api"@ || c == "reference"@ {
            self.api_reference@
        } else if c == "tutorials"@ || c == "guides"@ {
            self.tutorials@
        } else if c == "best_practices"@ || c == "practices"@ {
            self.best_practices@
        } else if c == "migration"@ {
            self.migration_guides@
        } else {
            self.all_urls()
        }
    }

    /// The built-in documentation URLs.
    pub fn new() -> (r: Self)
        ensures
            r.is_standard(),
    {
        let mut api_reference: Vec<String> = Vec::new();
        api_reference.push(String::from_str("https://google.github.io/adk-docs/api/"));
        let mut tutorials: Vec<String> = Vec::new();
        tutorials.push(String::from_str("https://google.github.io/adk-docs/tutorials/"));
        let mut best_practices: Vec<String> = Vec::new();
        best_practices.push(String::from_str("https://google.github.io/adk-docs/best-practices/"));
        let mut migration_guides: Vec<String> = Vec::new();
        migration_guides.push(String::from_str("https://google.github.io/adk-docs/migration/"));
        let r = DocumentationUrls {
            quickstart: String::from_str("https://google.github.io/adk-docs/get-started/quickstart/"),
            api_reference,
            tutorials,
            best_practices,
            migration_guides,
        };
        assert(views(r.api_reference@) =~= one("https://google.github.io/adk-docs/api/"@));
        assert(views(r.tutorials@) =~= one("https://google.github.io/adk-docs/tutorials/"@));
        assert(views(r.best_practices@) =~= one(
            "https://google.github.io/adk-docs/best-practices/"@,
        ));
        assert(views(r.migration_guides@) =~= one(
            "https://google.github.io/adk-docs/migration/"@,
        ));
        r
    }

    /// All URLs as one flat list.
    pub fn get_all_urls(&self) -> (r: Vec<String>)
        ensures
            r@ == self.all_urls(),
    {
        let mut urls: Vec<String> = Vec::new();
        urls.push(self.quickstart.clone());
        extend_strings(&mut urls, &self.api_reference);
        extend_strings(&mut urls, &self.tutorials);
        extend_strings(&mut urls, &self.best_practices);
        extend_strings(&mut urls, &self.migration_guides);
        assert(urls@ =~= self.all_urls());
        urls
    }

    /// The URLs of one category (see `urls_for_category`).
    pub fn get_urls_by_category(&self, category: &str) -> (r: Vec<String>)
        ensures
            r@ == self.urls_for_category(category@),
    {
        let c = lowercase(category);
        self.urls_for_lowercase_category(c.as_str())
    }

    /// The URLs of a category given in lowercase (see
    /// `urls_for_folded_category`).
    pub fn urls_for_lowercase_category(&self, c: &str) -> (r: Vec<String>)
        ensures
            r@ == self.urls_for_folded_category(c@),
    {
        if same_text(c, "quickstart") {
            let mut v: Vec<String> = Vec::new();
            v.push(self.quickstart.clone());
            assert(v@ =~= seq![self.quickstart]);
            v
        } else if same_text(c, "api") || same_text(c, "reference") {
            copy_strings(&self.api_reference)
        } else if same_text(c, "tutorials") || same_text(c, "guides") {
            copy_strings(&self.tutorials)
        } else if same_text(c, "best_practices") || same_text(c, "practices") {
            copy_strings(&self.best_practices)
        } else if same_text(c, "migration") {
            copy_strings(&self.migration_guides)
        } else {
            self.get_all_urls()
        }
    }
}

/// The concept matches `query` ignoring case, by name or by description.
pub open spec fn concept_matches(c: ConceptInfo, query: Seq<char>) -> bool {
    seq_contains(lower_of(c.name@), lower_of(query)) || seq_contains(
        lower_of(c.description@),
        lower_of(query),
    )
}

/// The concepts of `cs` that match `query`, in stored order.
pub open spec fn concept_hits(cs: Seq<(String, ConceptInfo)>, query: Seq<char>) -> Seq<
    ConceptInfo,
>
    decreases cs.len(),
{
    if cs.len() == 0 {
        seq![]
    } else {
        let rest = concept_hits(cs.drop_last(), query);
        if concept_matches(cs.last().1, query) {
            rest.push(cs.last().1)
        } else {
            rest
        }
    }
}

/// The practices of `ps` whose category equals `category` up to ASCII case.
pub open spec fn practices_in(ps: Seq<BestPractice>, category: Seq<char>) -> Seq<BestPractice>
    decreases ps.len(),
{
    if ps.len() == 0 {
        seq![]
    } else {
        let rest = practices_in(ps.drop_last(), category);
        if eq_ascii_case(ps.last().category@, category) {
            rest.push(ps.last())
        } else {
            rest
        }
    }
}

/// Versioned documentation knowledge.
#[derive(Clone, Debug)]
pub struct AdkKnowledgeBase {
    /// Documentation bundles, keyed by version
    pub version_docs: Vec<(String, VersionDocs)>,
    /// Version used when a caller names none
    pub default_version: String,
    /// Version aliases and known versions
    pub version_config: VersionConfig,
}

impl AdkKnowledgeBase {
    /// The version a caller means: the one given, or the default.
    pub open spec fn effective_version(&self, version: Option<&str>) -> Seq<char> {
        match version {
            Some(v) => v@,
            None => self.default_version@,
        }
    }

    /// The bundle for `version` after alias resolution, else the default
    /// version's bundle.
    pub open spec fn docs_for(&self, version: Seq<char>) -> Option<VersionDocs> {
        match lookup(self.version_docs@, self.version_config.resolve_spec(version)) {
            Some(d) => Some(d),
            None => lookup(self.version_docs@, self.default_version@),
        }
    }

    /// The built-in bundle stored under "1.0.0", and nothing else.
    pub open spec fn holds_builtin_docs(&self) -> bool {
        &&& keys_unique(self.version_docs@)
        &&& self.version_docs@.len() == 1
        &&& self.version_docs@[0].0@ == "1.0.0"@
        &&& builtin_docs(self.version_docs@[0].1)
    }

    /// A knowledge base with the built-in documentation.
    pub fn new() -> (r: Self)
        ensures
            r.holds_builtin_docs(),
            r.default_version@ == "1.0.0"@,
            r.version_config.default_version@ == "latest"@,
            r.version_config.is_builtin(),
            r.version_config.resolve_spec("latest"@) == "1.0.0"@,
            r.version_config.resolve_spec("stable"@) == "1.0.0"@,
            r.version_config.available_versions@.len() == 2,
    {
        let version_config = VersionConfig::new(None);
        let default_version = version_config.resolve_version("latest");
        let latest_docs = VersionDocs {
            version: default_version.clone(),
            official_urls: DocumentationUrls::new(),
            concepts: Self::initialize_default_concepts(),
            best_practices: Self::initialize_default_best_practices(),
            implementation_patterns: Self::initialize_default_patterns(),
            version_features: Vec::new(),
        };
        let mut version_docs: Vec<(String, VersionDocs)> = Vec::new();
        version_docs.push((default_version.clone(), latest_docs));
        proof {
            let a = version_config.version_aliases@;
            assert(a.drop_first()[0] == a[1]);
            assert(lookup(a, "latest"@) == Some(a[0].1));
            if "stable"@ != "latest"@ {
                assert(lookup(a, "stable"@) == lookup(a.drop_first(), "stable"@));
                assert(lookup(a.drop_first(), "stable"@) == Some(a[1].1));
            }
        }
        AdkKnowledgeBase { version_docs, default_version, version_config }
    }

    /// A knowledge base with the built-in documentation and the given
    /// version configuration; the default version is what "latest" resolves to.
    pub fn with_version_config(config: VersionConfig) -> (r: Self)
        ensures
            r.holds_builtin_docs(),
            r.version_config == config,
            r.default_version@ == config.resolve_spec("latest"@),
    {
        let mut kb = Self::new();
        kb.version_config = config;
        kb.default_version = kb.version_config.resolve_version("latest");
        kb
    }

    /// The bundle for `version` (see `docs_for`).
    pub fn get_version_docs(&self, version: &str) -> (r: Option<&VersionDocs>)
        ensures
            match r {
                Some(d) => self.docs_for(version@) == Some(*d),
                None => self.docs_for(version@) is None,
            },
    {
        let resolved = self.version_config.resolve_version(version);
        match find_entry(&self.version_docs, resolved.as_str()) {
            Some(i) => Some(&self.version_docs[i].1),
            None => match find_entry(&self.version_docs, self.default_version.as_str()) {
                Some(j) => Some(&self.version_docs[j].1),
                None => None,
            },
        }
    }

    /// Stores `docs` as the bundle of `version`.
    pub fn update_version_docs(&mut self, version: String, docs: VersionDocs)
        ensures
            lookup(final(self).version_docs@, version@) == Some(docs),
            keys_unique(old(self).version_docs@) ==> keys_unique(final(self).version_docs@),
            forall|k: Seq<char>|
                k != version@ ==> #[trigger] lookup(final(self).version_docs@, k) == lookup(
                    old(self).version_docs@,
                    k,
                ),
            final(self).default_version == old(self).default_version,
            final(self).version_config == old(self).version_config,
    {
        upsert(&mut self.version_docs, version, docs);
    }

    /// The known versions.
    pub fn get_available_versions(&self) -> (r: Vec<String>)
        ensures
            r@ == self.version_config.available_versions@,
    {
        copy_strings(&self.version_config.available_versions)
    }

    /// Resolves a version alias.
    pub fn resolve_version(&self, version: &str) -> (r: String)
        ensures
            r@ == self.version_config.resolve_spec(version@),
    {
        self.version_config.resolve_version(version)
    }

    /// The concepts of the bundle for `version` that match `query` ignoring
    /// case, by name or description.
    pub fn search_concepts(&self, query: &str, version: Option<&str>) -> (r: Vec<&ConceptInfo>)
        ensures
            derefs(r@) == (match self.docs_for(self.effective_version(version)) {
                Some(d) => concept_hits(d.concepts@, query@),
                None => seq![],
            }),
    {
        let v = match version {
            Some(v) => v,
            None => self.default_version.as_str(),
        };
        let mut hits: Vec<&ConceptInfo> = Vec::new();
        match self.get_version_docs(v) {
            Some(docs) => {
                let q = lowercase(query);
                let mut i: usize = 0;
                while i < docs.concepts.len()
                    invariant
                        q@ == lower_of(query@),
                        i <= docs.concepts@.len(),
                        derefs(hits@) == concept_hits(docs.concepts@.take(i as int), query@),
                    decreases docs.concepts@.len() - i,
                {
                    let c = &docs.concepts[i].1;
                    let name = lowercase(c.name.as_str());
                    let description = lowercase(c.description.as_str());
                    assert(docs.concepts@.take(i + 1).drop_last() =~= docs.concepts@.take(
                        i as int,
                    ));
                    if crate::text::contains(name.as_str(), q.as_str()) || crate::text::contains(
                        description.as_str(),
                        q.as_str(),
                    ) {
                        proof {
                            lemma_derefs_push(hits@, c);
                        }
                        hits.push(c);
                    }
                    i = i + 1;
                }
                assert(docs.concepts@.take(docs.concepts@.len() as int) =~= docs.concepts@);
            },
            None => {
                assert(derefs(hits@) =~= seq![]);
            },
        }
        hits
    }

    /// The practices of the bundle for `version` whose category equals
    /// `category` up to ASCII case.
    pub fn get_best_practices_by_category(&self, category: &str, version: Option<&str>) -> (r:
        Vec<&BestPractice>)
        ensures
            derefs(r@) == (match self.docs_for(self.effective_version(version)) {
                Some(d) => practices_in(d.best_practices@, category@),
                None => seq![],
            }),
    {
        let v = match version {
            Some(v) => v,
            None => self.default_version.as_str(),
        };
        let mut found: Vec<&BestPractice> = Vec::new();
        match self.get_version_docs(v) {
            Some(docs) => {
                let mut i: usize = 0;
                while i < docs.best_practices.len()
                    invariant
                        i <= docs.best_practices@.len(),
                        derefs(found@) == practices_in(
                            docs.best_practices@.take(i as int),
                            category@,
                        ),
                    decreases docs.best_practices@.len() - i,
                {
                    let p = &docs.best_practices[i];
                    assert(docs.best_practices@.take(i + 1).drop_last() =~= docs.best_practices@.take(
                        i as int,
                    ));
                    if eq_ignore_ascii_case(p.category.as_str(), category) {
                        proof {
                            lemma_derefs_push(found@, p);
                        }
                        found.push(p);
                    }
                    i = i + 1;
                }
                assert(docs.best_practices@.take(docs.best_practices@.len() as int)
                    =~= docs.best_practices@);
            },
            None => {
                assert(derefs(found@) =~= seq![]);
            },
        }
        found
    }

    /// The pattern stored under `pattern_name` in the bundle for `version`.
    pub fn get_implementation_pattern(&self, pattern_name: &str, version: Option<&str>) -> (r:
        Option<&ImplementationPattern>)
        ensures
            match self.docs_for(self.effective_version(version)) {
                Some(d) => match r {
                    Some(p) => lookup(d.implementation_patterns@, pattern_name@) == Some(*p),
                    None => lookup(d.implementation_patterns@, pattern_name@) is None,
                },
                None => r is None,
            },
    {
        let v = match version {
            Some(v) => v,
            None => self.default_version.as_str(),
        };
        match self.get_version_docs(v) {
            Some(docs) => match find_entry(&docs.implementation_patterns, pattern_name) {
                Some(i) => Some(&docs.implementation_patterns[i].1),
                None => None,
            },
            None => None,
        }
    }

    /// The documentation URLs of the bundle for `version`.
    pub fn get_official_urls(&self, version: Option<&str>) -> (r: Option<&DocumentationUrls>)
        ensures
            match self.docs_for(self.effective_version(version)) {
                Some(d) => r == Some(&d.official_urls),
                None => r is None,
            },
    {
        let v = match version {
            Some(v) => v,
            None => self.default_version.as_str(),
        };
        match self.get_version_docs(v) {
            Some(docs) => Some(&docs.official_urls),
            None => None,
        }
    }
}

/// The built-in concepts, keyed by identifier.
pub open spec fn builtin_concepts(cs: Seq<(String, ConceptInfo)>) -> bool {
    &&& cs.len() == 2
    &&& keys_unique(cs)
    &&& cs[0].0@ == "application_development_kit"@
    &&& cs[0].1.name@ == "Application Development Kit (ADK)"@
    &&& cs[0].1.description@
        == "Google's comprehensive toolkit for building applications with best practices and official patterns."@
    &&& cs[1].0@ == "best_practices"@
    &&& cs[1].1.name@ == "ADK Best Practices"@
    &&& cs[1].1.description@
        == "Official Google ADK recommended practices for application development."@
}

/// The built-in best practices.
pub open spec fn builtin_practices(ps: Seq<BestPractice>) -> bool {
    &&& ps.len() == 2
    &&& ps[0].title@ == "Follow Official ADK Patterns"@
    &&& ps[0].description@
        == "Always use official Google ADK architectural patterns and conventions."@
    &&& ps[0].category@ == "architecture"@
    &&& ps[1].title@ == "Version-Aware Development"@
    &&& ps[1].description@
        == "Always specify and track ADK versions for consistent development."@
    &&& ps[1].category@ == "versioning"@
}

/// The built-in implementation patterns, keyed by identifier.
pub open spec fn builtin_patterns(ps: Seq<(String, ImplementationPattern)>) -> bool {
    &&& ps.len() == 1
    &&& ps[0].0@ == "basic_setup"@
    &&& ps[0].1.name@ == "Basic ADK Setup"@
    &&& ps[0].1.description@ == "Standard pattern for setting up a new ADK project."@
    &&& views(ps[0].1.use_cases@) == seq![
        "New project initialization"@,
        "ADK integration into existing projects"@,
    ]
}

/// The built-in bundle of version "1.0.0".
pub open spec fn builtin_docs(d: VersionDocs) -> bool {
    &&& d.version@ == "1.0.0"@
    &&& d.official_urls.is_standard()
    &&& builtin_concepts(d.concepts@)
    &&& builtin_practices(d.best_practices@)
    &&& builtin_patterns(d.implementation_patterns@)
    &&& d.version_features@.len() == 0
}

fn strings2(a: &str, b: &str) -> (r: Vec<String>)
    ensures
        views(r@) == seq![a@, b@],
{
    let mut v: Vec<String> = Vec::new();
    v.push(String::from_str(a));
    v.push(String::from_str(b));
    assert(views(v@) =~= seq![a@, b@]);
    v
}

fn strings1(a: &str) -> (r: Vec<String>)
    ensures
        views(r@) == seq![a@],
{
    let mut v: Vec<String> = Vec::new();
    v.push(String::from_str(a));
    assert(views(v@) =~= seq![a@]);
    v
}

impl AdkKnowledgeBase {
    fn initialize_default_concepts() -> (r: Vec<(String, ConceptInfo)>)
        ensures
            builtin_concepts(r@),
    {
        proof {
            reveal_strlit("application_development_kit");
            reveal_strlit("best_practices");
        }
        assert("application_development_kit"@.len() != "best_practices"@.len());
        let mut concepts: Vec<(String, ConceptInfo)> = Vec::new();
        concepts.push(
            (
                String::from_str("application_development_kit"),
                ConceptInfo {
                    name: String::from_str("Application Development Kit (ADK)"),
                    description: String::from_str(
                        "Google's comprehensive toolkit for building applications with best practices and official patterns.",
                    ),
                    examples: strings2("Basic ADK project setup", "ADK configuration patterns"),
                    related_concepts: strings2("best_practices", "architecture_patterns"),
                    documentation_refs: strings1(
                        "https://google.github.io/adk-docs/get-started/quickstart/",
                    ),
                },
            ),
        );
        concepts.push(
            (
                String::from_str("best_practices"),
                ConceptInfo {
                    name: String::from_str("ADK Best Practices"),
                    description: String::from_str(
                        "Official Google ADK recommended practices for application development.",
                    ),
                    examples: strings2(
                        "Code organization patterns",
                        "Performance optimization techniques",
                    ),
                    related_concepts: strings2(
                        "architecture_patterns",
                        "application_development_kit",
                    ),
                    documentation_refs: strings1(
                        "https://google.github.io/adk-docs/get-started/quickstart/",
                    ),
                },
            ),
        );
        concepts
    }

    fn initialize_default_best_practices() -> (r: Vec<BestPractice>)
        ensures
            builtin_practices(r@),
    {
        let mut practices: Vec<BestPractice> = Vec::new();
        practices.push(
            BestPractice {
                title: String::from_str("Follow Official ADK Patterns"),
                description: String::from_str(
                    "Always use official Google ADK architectural patterns and conventions.",
                ),
                category: String::from_str("architecture"),
                examples: strings2("Use recommended project structure", "Follow naming conventions"),
                documentation_ref: String::from_str(
                    "https://google.github.io/adk-docs/get-started/quickstart/",
                ),
            },
        );
        practices.push(
            BestPractice {
                title: String::from_str("Version-Aware Development"),
                description: String::from_str(
                    "Always specify and track ADK versions for consistent development.",
                ),
                category: String::from_str("versioning"),
                examples: strings2(
                    "Pin ADK version in configuration",
                    "Use version-specific features appropriately",
                ),
                documentation_ref: String::from_str(
                    "https://google.github.io/adk-docs/get-started/quickstart/",
                ),
            },
        );
        practices
    }

    fn initialize_default_patterns() -> (r: Vec<(String, ImplementationPattern)>)
        ensures
            builtin_patterns(r@),
    {
        let mut code_examples: Vec<CodeExample> = Vec::new();
        code_examples.push(
            CodeExample {
                title: String::from_str("Basic Configuration"),
                language: String::from_str("rust"),
                code: String::from_str("// ADK setup example - to be populated with actual patterns"),
                explanation: String::from_str(
                    "Basic ADK project configuration following official guidelines.",
                ),
            },
        );
        let mut patterns: Vec<(String, ImplementationPattern)> = Vec::new();
        patterns.push(
            (
                String::from_str("basic_setup"),
                ImplementationPattern {
                    name: String::from_str("Basic ADK Setup"),
                    description: String::from_str(
                        "Standard pattern for setting up a new ADK project.",
                    ),
                    use_cases: strings2(
                        "New project initialization",
                        "ADK integration into existing projects",
                    ),
                    code_examples,
                    related_practices: strings1("Follow Official ADK Patterns"),
                },
            ),
        );
        patterns
    }
}

} // verus!

verus! {

/// Two aliases stored with the same target resolve to the same version.
pub proof fn lemma_aliases_with_one_target_agree(
    config: VersionConfig,
    first: Seq<char>,
    second: Seq<char>,
    target: String,
)
    requires
        lookup(config.version_aliases@, first) == Some(target),
        lookup(config.version_aliases@, second) == Some(target),
    ensures
        config.resolve_spec(first) == config.resolve_spec(second),
        config.resolve_spec(first) == target@,
{
}

/// A version with no alias resolves to itself.
pub proof fn lemma_unaliased_version_is_unchanged(config: VersionConfig, version: Seq<char>)
    requires
        lookup(config.version_aliases@, version) is None,
    ensures
        config.resolve_spec(version) == version,
{
}

/// Selecting practices by category keeps exactly those whose stored
/// category equals the requested one up to ASCII case, in stored order.
pub proof fn lemma_practices_in_match_category(ps: Seq<BestPractice>, category: Seq<char>)
    ensures
        forall|i: int|
            0 <= i < practices_in(ps, category).len() ==> eq_ascii_case(
                #[trigger] practices_in(ps, category)[i].category@,
                category,
            ),
        forall|i: int|
            0 <= i < ps.len() && eq_ascii_case(ps[i].category@, category) ==> practices_in(
                ps,
                category,
            ).contains(#[trigger] ps[i]),
    decreases ps.len(),
{
    if ps.len() > 0 {
        lemma_practices_in_match_category(ps.drop_last(), category);
        let rest = practices_in(ps.drop_last(), category);
        assert forall|i: int|
            0 <= i < ps.len() && eq_ascii_case(ps[i].category@, category) implies practices_in(
            ps,
            category,
        ).contains(#[trigger] ps[i]) by {
            if i < ps.len() - 1 {
                assert(ps.drop_last()[i] == ps[i]);
                let k = choose|k: int| 0 <= k < rest.len() && rest[k] == ps[i];
                if eq_ascii_case(ps.last().category@, category) {
                    assert(practices_in(ps, category)[k] == ps[i]);
                }
            } else {
                let out = practices_in(ps, category);
                assert(out[out.len() - 1] == ps[i]);
            }
        }
    }
}

} // verus!
