//! Textual and structural facts about a Rust source file, and the review
//! findings drawn from them.
use vstd::prelude::*;
use crate::review::{
    ArchitecturalImprovement, ComplianceIssue, OrganizationSuggestion, TranslationOpportunity,
    seq_view,
};
use crate::text::{
    chars_of, contains_chars, strip_spaces, without_spaces,
    decimal, decimal_string, ends_with, lines_of, seq_contains, seq_ends_with, seq_starts_with,
    split_lines, trim_start_seq, trimmed_starts_with,
};

verus! {

/// The file name of a path without its extension, or empty when the path
/// has none, as `Path::file_stem` gives it.
pub uninterp spec fn file_stem_of(path: Seq<char>) -> Seq<char>;

/// Relies on `Path::file_stem` and `OsStr::to_str`: the stem, or empty.
#[verifier::external_body]
fn file_stem(path: &str) -> (r: String)
    ensures
        r@ == file_stem_of(path@),
{
    std::path::Path::new(path).file_stem().and_then(|s| s.to_str()).unwrap_or("").to_string()
}

/// The kind of a top-level item, as the analysis counts it.
#[derive(Clone, Copy, Debug, PartialEq, Eq, Structural)]
pub enum ItemShape {
    Function { is_async: bool, is_public: bool },
    Struct { is_public: bool },
    Enum,
    Impl,
    Other,
}

/// One top-level item, as the Rust parser reports it: its kind, and for a
/// function its return type.
#[derive(Debug)]
pub struct ItemFacts {
    pub shape: ItemShape,
    /// The return type of a function item printed as tokens (empty when it
    /// returns `()` implicitly, and for other items)
    pub return_type: String,
}

impl ItemFacts {
    /// The facts of a function item.
    pub fn function(is_async: bool, is_public: bool, return_type: String) -> (r: Self)
        ensures
            r.shape == (ItemShape::Function { is_async, is_public }),
            r.return_type == return_type,
    {
        ItemFacts { shape: ItemShape::Function { is_async, is_public }, return_type }
    }

    /// The facts of an item that is not a function.
    pub fn other(shape: ItemShape) -> (r: Self)
        ensures
            r.shape == shape,
            r.return_type@.len() == 0,
    {
        ItemFacts { shape, return_type: String::new() }
    }
}

/// A Rust file: its text, its lines, whether it parsed, and the top-level
/// items the parser reported.
pub struct RustCodeAnalyzer {
    /// The text parsed as a Rust file
    pub valid_syntax: bool,
    pub source: String,
    pub items: Vec<ItemFacts>,
    pub lines: Vec<String>,
}

/// Counts and line numbers drawn from a file.
#[derive(Debug)]
pub struct CodePatterns {
    pub function_count: usize,
    pub async_functions: usize,
    pub public_functions: usize,
    pub result_returning_functions: usize,
    pub struct_count: usize,
    pub enum_count: usize,
    pub impl_count: usize,
    /// Lines (from 1) containing "unwrap()"
    pub unwrap_usage: Vec<usize>,
    /// Lines (from 1) containing "panic!"
    pub panic_usage: Vec<usize>,
    /// Lines (from 1) containing "todo!" or "unimplemented!"
    pub todo_usage: Vec<usize>,
}

/// What is counted over the items.
pub enum Tally {
    Functions,
    AsyncFunctions,
    PublicFunctions,
    ResultFunctions,
    Structs,
    PublicStructs,
    Enums,
    Impls,
}

pub open spec fn counted(f: ItemFacts, what: Tally) -> bool {
    match what {
        Tally::Functions => f.shape is Function,
        Tally::AsyncFunctions => f.shape matches ItemShape::Function { is_async: true, .. },
        Tally::PublicFunctions => f.shape matches ItemShape::Function { is_public: true, .. },
        Tally::ResultFunctions => f.shape is Function && seq_contains(
            without_spaces(f.return_type@),
            "Result<"@,
        ),
        Tally::Structs => f.shape is Struct,
        Tally::PublicStructs => f.shape matches ItemShape::Struct { is_public: true },
        Tally::Enums => f.shape is Enum,
        Tally::Impls => f.shape is Impl,
    }
}

/// How many items are counted as `what`.
pub open spec fn tally(items: Seq<ItemFacts>, what: Tally) -> nat
    decreases items.len(),
{
    if items.len() == 0 {
        0
    } else {
        tally(items.drop_last(), what) + if counted(items.last(), what) {
            1nat
        } else {
            0nat
        }
    }
}

proof fn lemma_tally_bounded(items: Seq<ItemFacts>, what: Tally)
    ensures
        tally(items, what) <= items.len(),
    decreases items.len(),
{
    if items.len() > 0 {
        lemma_tally_bounded(items.drop_last(), what);
    }
}

/// The line contains `a` or `b`.
pub open spec fn line_has(line: Seq<char>, a: Seq<char>, b: Seq<char>) -> bool {
    seq_contains(line, a) || seq_contains(line, b)
}

/// The numbers (from 1, ascending) of the lines containing `a` or `b`.
pub open spec fn lines_containing(lines: Seq<Seq<char>>, a: Seq<char>, b: Seq<char>) -> Seq<
    usize,
>
    decreases lines.len(),
{
    if lines.len() == 0 {
        seq![]
    } else {
        let rest = lines_containing(lines.drop_last(), a, b);
        if line_has(lines.last(), a, b) {
            rest.push(lines.len() as usize)
        } else {
            rest
        }
    }
}

/// The facts of a file, as numbers and sequences.
pub struct PatternsView {
    pub function_count: nat,
    pub async_functions: nat,
    pub public_functions: nat,
    pub result_returning_functions: nat,
    pub struct_count: nat,
    pub enum_count: nat,
    pub impl_count: nat,
    pub unwrap_usage: Seq<usize>,
    pub panic_usage: Seq<usize>,
    pub todo_usage: Seq<usize>,
}

impl View for CodePatterns {
    type V = PatternsView;

    open spec fn view(&self) -> PatternsView {
        PatternsView {
            function_count: self.function_count as nat,
            async_functions: self.async_functions as nat,
            public_functions: self.public_functions as nat,
            result_returning_functions: self.result_returning_functions as nat,
            struct_count: self.struct_count as nat,
            enum_count: self.enum_count as nat,
            impl_count: self.impl_count as nat,
            unwrap_usage: self.unwrap_usage@,
            panic_usage: self.panic_usage@,
            todo_usage: self.todo_usage@,
        }
    }
}

pub open spec fn line_views(lines: Seq<String>) -> Seq<Seq<char>> {
    lines.map_values(|l: String| l@)
}

/// The facts of a parsed file.
pub open spec fn patterns_of(items: Seq<ItemFacts>, lines: Seq<Seq<char>>) -> PatternsView {
    PatternsView {
        function_count: tally(items, Tally::Functions),
        async_functions: tally(items, Tally::AsyncFunctions),
        public_functions: tally(items, Tally::PublicFunctions),
        result_returning_functions: tally(items, Tally::ResultFunctions),
        struct_count: tally(items, Tally::Structs),
        enum_count: tally(items, Tally::Enums),
        impl_count: tally(items, Tally::Impls),
        unwrap_usage: lines_containing(lines, "unwrap()"@, "unwrap()"@),
        panic_usage: lines_containing(lines, "panic!"@, "panic!"@),
        todo_usage: lines_containing(lines, "todo!"@, "unimplemented!"@),
    }
}

impl RustCodeAnalyzer {
    /// This analyzer was built from `content` and the parser's report on
    /// it: `Some(items)` when the text parses, `None` when it does not.
    pub open spec fn describes(&self, content: Seq<char>, parsed: Option<Vec<ItemFacts>>) -> bool {
        &&& self.source@ == content
        &&& line_views(self.lines@) == lines_of(content)
        &&& self.valid_syntax == parsed.is_some()
        &&& self.items@ == (match parsed {
            Some(items) => items@,
            None => seq![],
        })
    }

    pub open spec fn patterns_spec(&self) -> PatternsView {
        patterns_of(self.items@, line_views(self.lines@))
    }

    /// The analysis of `content`, given what the Rust parser reported on
    /// it (`None` for text that does not parse); an unparsable text still
    /// yields its lines.
    pub fn new(content: &str, parsed: Option<Vec<ItemFacts>>) -> (r: Self)
        ensures
            r.describes(content@, parsed),
    {
        let (valid_syntax, items) = match parsed {
            Some(items) => (true, items),
            None => (false, Vec::new()),
        };
        let lines = split_lines(content);
        assert(line_views(lines@) =~= lines_of(content@));
        RustCodeAnalyzer { valid_syntax, source: String::from_str(content), items, lines }
    }

    /// The lines of the text.
    pub fn lines(&self) -> (r: &Vec<String>)
        ensures
            r == &self.lines,
    {
        &self.lines
    }

    /// The text parsed as Rust.
    pub fn has_valid_syntax(&self) -> (r: bool)
        ensures
            r == self.valid_syntax,
    {
        self.valid_syntax
    }

    fn items_where(&self, what: Tally) -> (r: Vec<&ItemFacts>)
        ensures
            r@.len() == tally(self.items@, what),
            forall|k: int| 0 <= k < r@.len() ==> counted(*#[trigger] r@[k], what),
    {
        let mut found: Vec<&ItemFacts> = Vec::new();
        let mut i: usize = 0;
        while i < self.items.len()
            invariant
                i <= self.items@.len(),
                found@.len() == tally(self.items@.take(i as int), what),
                forall|k: int| 0 <= k < found@.len() ==> counted(*#[trigger] found@[k], what),
            decreases self.items@.len() - i,
        {
            let f = &self.items[i];
            assert(self.items@.take(i + 1).drop_last() =~= self.items@.take(i as int));
            let hit = match what {
                Tally::Functions => matches!(f.shape, ItemShape::Function { .. }),
                Tally::AsyncFunctions => matches!(f.shape, ItemShape::Function { is_async: true, .. }),
                Tally::PublicFunctions => matches!(
                    f.shape,
                    ItemShape::Function { is_public: true, .. }
                ),
                Tally::ResultFunctions => matches!(f.shape, ItemShape::Function { .. })
                    && returns_result(&f.return_type),
                Tally::Structs => matches!(f.shape, ItemShape::Struct { .. }),
                Tally::PublicStructs => matches!(f.shape, ItemShape::Struct { is_public: true }),
                Tally::Enums => matches!(f.shape, ItemShape::Enum),
                Tally::Impls => matches!(f.shape, ItemShape::Impl),
            };
            if hit {
                found.push(f);
            }
            i = i + 1;
        }
        assert(self.items@.take(self.items@.len() as int) =~= self.items@);
        found
    }

    /// The function items.
    pub fn extract_functions(&self) -> (r: Vec<&ItemFacts>)
        ensures
            r@.len() == tally(self.items@, Tally::Functions),
            forall|k: int| 0 <= k < r@.len() ==> (*#[trigger] r@[k]).shape is Function,
    {
        self.items_where(Tally::Functions)
    }

    /// The struct items.
    pub fn extract_structs(&self) -> (r: Vec<&ItemFacts>)
        ensures
            r@.len() == tally(self.items@, Tally::Structs),
            forall|k: int| 0 <= k < r@.len() ==> (*#[trigger] r@[k]).shape is Struct,
    {
        self.items_where(Tally::Structs)
    }

    /// The enum items.
    pub fn extract_enums(&self) -> (r: Vec<&ItemFacts>)
        ensures
            r@.len() == tally(self.items@, Tally::Enums),
            forall|k: int| 0 <= k < r@.len() ==> (*#[trigger] r@[k]).shape is Enum,
    {
        self.items_where(Tally::Enums)
    }

    /// The impl blocks.
    pub fn extract_impls(&self) -> (r: Vec<&ItemFacts>)
        ensures
            r@.len() == tally(self.items@, Tally::Impls),
            forall|k: int| 0 <= k < r@.len() ==> (*#[trigger] r@[k]).shape is Impl,
    {
        self.items_where(Tally::Impls)
    }

    /// Counts of functions and types, and the lines of risky constructs.
    pub fn analyze_patterns(&self) -> (r: CodePatterns)
        ensures
            r@ == self.patterns_spec(),
    {
        let mut function_count: usize = 0;
        let mut async_functions: usize = 0;
        let mut public_functions: usize = 0;
        let mut result_returning_functions: usize = 0;
        let mut struct_count: usize = 0;
        let mut enum_count: usize = 0;
        let mut impl_count: usize = 0;
        let mut i: usize = 0;
        let ghost items = self.items@;
        while i < self.items.len()
            invariant
                items == self.items@,
                i <= items.len(),
                function_count == tally(items.take(i as int), Tally::Functions),
                async_functions == tally(items.take(i as int), Tally::AsyncFunctions),
                public_functions == tally(items.take(i as int), Tally::PublicFunctions),
                result_returning_functions == tally(items.take(i as int), Tally::ResultFunctions),
                struct_count == tally(items.take(i as int), Tally::Structs),
                enum_count == tally(items.take(i as int), Tally::Enums),
                impl_count == tally(items.take(i as int), Tally::Impls),
            decreases items.len() - i,
        {
            proof {
                assert(items.take(i + 1).drop_last() =~= items.take(i as int));
                lemma_tally_bounded(items.take(i as int), Tally::Functions);
                lemma_tally_bounded(items.take(i as int), Tally::AsyncFunctions);
                lemma_tally_bounded(items.take(i as int), Tally::PublicFunctions);
                lemma_tally_bounded(items.take(i as int), Tally::ResultFunctions);
                lemma_tally_bounded(items.take(i as int), Tally::Structs);
                lemma_tally_bounded(items.take(i as int), Tally::Enums);
                lemma_tally_bounded(items.take(i as int), Tally::Impls);
            }
            let f = &self.items[i];
            match f.shape {
                ItemShape::Function { is_async, is_public } => {
                    function_count = function_count + 1;
                    if is_async {
                        async_functions = async_functions + 1;
                    }
                    if is_public {
                        public_functions = public_functions + 1;
                    }
                    if returns_result(&f.return_type) {
                        result_returning_functions = result_returning_functions + 1;
                    }
                },
                ItemShape::Struct { .. } => {
                    struct_count = struct_count + 1;
                },
                ItemShape::Enum => {
                    enum_count = enum_count + 1;
                },
                ItemShape::Impl => {
                    impl_count = impl_count + 1;
                },
                ItemShape::Other => {},
            }
            i = i + 1;
        }
        assert(items.take(items.len() as int) =~= items);
        CodePatterns {
            function_count,
            async_functions,
            public_functions,
            result_returning_functions,
            struct_count,
            enum_count,
            impl_count,
            unwrap_usage: lines_with(&self.lines, "unwrap()", "unwrap()"),
            panic_usage: lines_with(&self.lines, "panic!", "panic!"),
            todo_usage: lines_with(&self.lines, "todo!", "unimplemented!"),
        }
    }
}

/// The return type, spaces dropped, mentions `Result<`.
fn returns_result(return_type: &String) -> (r: bool)
    ensures
        r == seq_contains(without_spaces(return_type@), "Result<"@),
{
    let text = strip_spaces(return_type.as_str());
    let needle = chars_of("Result<");
    contains_chars(&text, &needle)
}

/// The numbers (from 1) of the lines containing `a` or `b`.
fn lines_with(lines: &Vec<String>, a: &str, b: &str) -> (r: Vec<usize>)
    ensures
        r@ == lines_containing(line_views(lines@), a@, b@),
{
    let ghost all = line_views(lines@);
    let mut found: Vec<usize> = Vec::new();
    let mut i: usize = 0;
    while i < lines.len()
        invariant
            all == line_views(lines@),
            i <= lines@.len(),
            found@ == lines_containing(all.take(i as int), a@, b@),
        decreases lines@.len() - i,
    {
        assert(all.take(i + 1).drop_last() =~= all.take(i as int));
        assert(all.take(i + 1).last() == lines@[i as int]@);
        let line = lines[i].as_str();
        if crate::text::contains(line, a) || crate::text::contains(line, b) {
            found.push(i + 1);
        }
        i = i + 1;
    }
    assert(all.take(lines@.len() as int) =~= all);
    found
}

// ---------------------------------------------------------------------------
// Findings

pub open spec fn line_opportunities(
    lines: Seq<usize>,
    description: Seq<char>,
    suggestion: Seq<char>,
) -> Seq<(usize, Seq<char>, Seq<char>)> {
    lines.map_values(|l: usize| (l, description, suggestion))
}

/// Translation opportunities: a syntax error alone when the text does not
/// parse; else each unwrap, panic and incomplete-implementation line, then
/// the first synchronous I/O line when there are functions and none is async.
pub open spec fn translation_spec(a: RustCodeAnalyzer) -> Seq<(usize, Seq<char>, Seq<char>)> {
    if !a.valid_syntax {
        seq![
            (
                1usize,
                "Syntax errors detected in Rust code"@,
                "Fix syntax errors to enable proper analysis and ADK compliance checking"@,
            ),
        ]
    } else {
        let p = a.patterns_spec();
        let io = lines_containing(line_views(a.lines@), "std::fs::"@, "File::"@);
        line_opportunities(
            p.unwrap_usage,
            "Direct unwrap() usage detected"@,
            "Replace unwrap() with proper error handling using match, if let, or ? operator for better ADK compliance"@,
        ) + line_opportunities(
            p.panic_usage,
            "Panic usage detected"@,
            "Replace panic! with Result-based error handling to follow ADK error handling patterns"@,
        ) + line_opportunities(
            p.todo_usage,
            "Incomplete implementation detected"@,
            "Complete the implementation following Google ADK patterns and best practices"@,
        ) + if p.function_count > 0 && p.async_functions == 0 && io.len() > 0 {
            seq![
                (
                    io[0],
                    "Synchronous I/O operation detected"@,
                    "Consider using async I/O operations (tokio::fs) for better performance in ADK applications"@,
                ),
            ]
        } else {
            seq![]
        }
    }
}

pub open spec fn when<T>(c: bool, x: T) -> Seq<T> {
    if c {
        seq![x]
    } else {
        seq![]
    }
}

/// Architectural improvements of a parsed file (none when it does not parse).
pub open spec fn architecture_spec(a: RustCodeAnalyzer) -> Seq<
    (Seq<char>, Seq<char>, Seq<char>, Seq<char>),
> {
    if !a.valid_syntax {
        seq![]
    } else {
        let p = a.patterns_spec();
        let l = line_views(a.lines@);
        let has_io = lines_containing(l, "std::fs::"@, "std::net::"@).len() > 0
            || lines_containing(l, "reqwest"@, "reqwest"@).len() > 0;
        when(
            p.function_count > 0 && p.result_returning_functions == 0,
            (
                "Error Handling Architecture"@,
                "Functions without Result return types"@,
                "Use Result<T, E> return types for fallible operations"@,
                "Google ADK emphasizes robust error handling. Functions that can fail should return Result types"@,
            ),
        ) + when(
            p.function_count > 2 && p.async_functions == 0 && has_io,
            (
                "Async Architecture"@,
                "Synchronous I/O operations"@,
                "Async/await pattern with tokio runtime"@,
                "ADK applications benefit from async architecture for better concurrency and performance"@,
            ),
        ) + when(
            p.struct_count > 3 && p.impl_count == 0,
            (
                "Code Organization"@,
                "Structs without associated implementations"@,
                "Group related functionality in impl blocks"@,
                "ADK promotes clear code organization with methods grouped in impl blocks"@,
            ),
        ) + when(
            p.public_functions > p.function_count / 2,
            (
                "API Design"@,
                "Many public functions without clear API boundaries"@,
                "Minimize public API surface, use pub(crate) for internal functions"@,
                "ADK emphasizes clean API design with minimal public interfaces"@,
            ),
        )
    }
}

/// Compliance issues: a syntax error alone when the text does not parse;
/// else panics, more than two unwraps, undocumented public items and
/// incomplete implementations.
pub open spec fn compliance_spec(a: RustCodeAnalyzer) -> Seq<(Seq<char>, Seq<char>, Seq<char>)> {
    if !a.valid_syntax {
        seq![
            (
                "Syntax Error"@,
                "Code contains syntax errors that prevent proper analysis"@,
                "Fix all syntax errors to ensure code compiles and follows Rust standards"@,
            ),
        ]
    } else {
        let p = a.patterns_spec();
        when(
            p.panic_usage.len() > 0,
            (
                "Error Handling Compliance"@,
                "Found "@ + decimal(p.panic_usage.len())
                    + " panic! usage(s) which violate ADK error handling guidelines"@,
                "Replace panic! with proper Result-based error handling or graceful error recovery"@,
            ),
        ) + when(
            p.unwrap_usage.len() > 2,
            (
                "Error Handling Compliance"@,
                "Excessive unwrap() usage ("@ + decimal(p.unwrap_usage.len())
                    + " instances) may indicate poor error handling"@,
                "Replace unwrap() calls with proper error handling using ?, match, or if let patterns"@,
            ),
        ) + when(
            p.public_functions > 0 || tally(a.items@, Tally::PublicStructs) > 0,
            (
                "Documentation Compliance"@,
                "Public items missing documentation comments"@,
                "Add /// documentation comments to all public functions, structs, and modules following ADK documentation standards"@,
            ),
        ) + when(
            p.todo_usage.len() > 0,
            (
                "Implementation Completeness"@,
                "Found "@ + decimal(p.todo_usage.len())
                    + " incomplete implementation(s) (todo!/unimplemented!)"@,
                "Complete all implementations or use proper feature flags for incomplete functionality"@,
            ),
        )
    }
}

/// How many lines begin with `use ` once leading white space is dropped.
pub open spec fn use_lines(lines: Seq<Seq<char>>) -> nat
    decreases lines.len(),
{
    if lines.len() == 0 {
        0
    } else {
        use_lines(lines.drop_last()) + if seq_starts_with(trim_start_seq(lines.last()), "use "@) {
            1nat
        } else {
            0nat
        }
    }
}

/// The first 20 lines, or all when there are fewer.
pub open spec fn head_lines(lines: Seq<Seq<char>>) -> Seq<Seq<char>> {
    if lines.len() < 20 {
        lines
    } else {
        lines.take(20)
    }
}

/// Organization suggestions for the file at `path` (computed whether or not
/// the text parses).
pub open spec fn organization_spec(a: RustCodeAnalyzer, path: Seq<char>) -> Seq<
    (Seq<char>, Seq<char>, Seq<char>),
> {
    let p = a.patterns_spec();
    let l = line_views(a.lines@);
    let stem = file_stem_of(path);
    when(
        l.len() > 500,
        (
            "File Size"@,
            "File is quite large ("@ + decimal(l.len()) + " lines) which may impact maintainability"@,
            "Consider splitting into smaller, focused modules following ADK organization patterns"@,
        ),
    ) + when(
        p.struct_count + p.enum_count > 5 && !seq_ends_with(path, "mod.rs"@),
        (
            "Module Organization"@,
            "Many types defined in a single file"@,
            "Consider organizing related types into separate modules with a mod.rs file"@,
        ),
    ) + when(
        p.function_count > 10 && p.impl_count == 0,
        (
            "Code Organization"@,
            "Many standalone functions without clear grouping"@,
            "Group related functions into structs with impl blocks or separate modules"@,
        ),
    ) + when(
        seq_contains(stem, "_"@) && !seq_ends_with(stem, "_test"@),
        (
            "Naming Convention"@,
            "File name uses underscores"@,
            "Consider using kebab-case for file names following Rust conventions"@,
        ),
    ) + when(
        use_lines(head_lines(l)) > 10,
        (
            "Import Organization"@,
            "Many import statements may indicate complex dependencies"@,
            "Group imports by source (std, external crates, local modules) and consider reducing dependencies"@,
        ),
    )
}

fn opportunity(line: usize, description: &str, suggestion: &str) -> (r: TranslationOpportunity)
    ensures
        r@ == (line, description@, suggestion@),
{
    TranslationOpportunity {
        line,
        description: String::from_str(description),
        suggestion: String::from_str(suggestion),
    }
}

fn improvement(area: &str, current: &str, recommended: &str, rationale: &str) -> (r:
    ArchitecturalImprovement)
    ensures
        r@ == (area@, current@, recommended@, rationale@),
{
    ArchitecturalImprovement {
        area: String::from_str(area),
        current_pattern: String::from_str(current),
        recommended_pattern: String::from_str(recommended),
        rationale: String::from_str(rationale),
    }
}

fn issue(issue_type: &str, description: String, fix: &str) -> (r: ComplianceIssue)
    ensures
        r@ == (issue_type@, description@, fix@),
{
    ComplianceIssue {
        issue_type: String::from_str(issue_type),
        description,
        fix_suggestion: String::from_str(fix),
    }
}

fn suggestion(kind: &str, description: String, action: &str) -> (r: OrganizationSuggestion)
    ensures
        r@ == (kind@, description@, action@),
{
    OrganizationSuggestion {
        suggestion_type: String::from_str(kind),
        description,
        action: String::from_str(action),
    }
}

fn push_line_opportunities(
    out: &mut Vec<TranslationOpportunity>,
    lines: &Vec<usize>,
    description: &str,
    suggestion: &str,
)
    ensures
        seq_view(final(out)@) == seq_view(old(out)@) + line_opportunities(
            lines@,
            description@,
            suggestion@,
        ),
{
    let ghost start = seq_view(out@);
    let mut i: usize = 0;
    while i < lines.len()
        invariant
            i <= lines@.len(),
            seq_view(out@) == start + line_opportunities(lines@.take(i as int), description@, suggestion@),
        decreases lines@.len() - i,
    {
        let ghost before = out@;
        out.push(opportunity(lines[i], description, suggestion));
        assert(seq_view(out@) =~= seq_view(before).push(out@.last()@));
        assert(line_opportunities(lines@.take(i + 1), description@, suggestion@)
            =~= line_opportunities(lines@.take(i as int), description@, suggestion@).push(
            (lines@[i as int], description@, suggestion@),
        ));
        i = i + 1;
    }
    assert(lines@.take(lines@.len() as int) =~= lines@);
}

proof fn lemma_view_push<T: View>(s: Seq<T>, x: T)
    ensures
        seq_view(s.push(x)) == seq_view(s).push(x@),
{
    assert(seq_view(s.push(x)) =~= seq_view(s).push(x@));
}

impl RustCodeAnalyzer {
    /// Translation opportunities (see `translation_spec`).
    pub fn translation_opportunities(&self) -> (r: Vec<TranslationOpportunity>)
        ensures
            seq_view(r@) == translation_spec(*self),
    {
        let mut opportunities: Vec<TranslationOpportunity> = Vec::new();
        if !self.has_valid_syntax() {
            opportunities.push(
                opportunity(
                    1,
                    "Syntax errors detected in Rust code",
                    "Fix syntax errors to enable proper analysis and ADK compliance checking",
                ),
            );
            assert(seq_view(opportunities@) =~= translation_spec(*self));
            return opportunities;
        }
        let patterns = self.analyze_patterns();
        push_line_opportunities(
            &mut opportunities,
            &patterns.unwrap_usage,
            "Direct unwrap() usage detected",
            "Replace unwrap() with proper error handling using match, if let, or ? operator for better ADK compliance",
        );
        push_line_opportunities(
            &mut opportunities,
            &patterns.panic_usage,
            "Panic usage detected",
            "Replace panic! with Result-based error handling to follow ADK error handling patterns",
        );
        push_line_opportunities(
            &mut opportunities,
            &patterns.todo_usage,
            "Incomplete implementation detected",
            "Complete the implementation following Google ADK patterns and best practices",
        );
        let ghost before = opportunities@;
        if patterns.function_count > 0 && patterns.async_functions == 0 {
            let io = lines_with(&self.lines, "std::fs::", "File::");
            if io.len() > 0 {
                opportunities.push(
                    opportunity(
                        io[0],
                        "Synchronous I/O operation detected",
                        "Consider using async I/O operations (tokio::fs) for better performance in ADK applications",
                    ),
                );
                proof {
                    lemma_view_push(before, opportunities@.last());
                }
            }
        }
        assert(seq_view(opportunities@) =~= translation_spec(*self));
        opportunities
    }

    /// Architectural improvements (see `architecture_spec`).
    pub fn architectural_improvements(&self) -> (r: Vec<ArchitecturalImprovement>)
        ensures
            seq_view(r@) == architecture_spec(*self),
    {
        let mut improvements: Vec<ArchitecturalImprovement> = Vec::new();
        if !self.has_valid_syntax() {
            assert(seq_view(improvements@) =~= architecture_spec(*self));
            return improvements;
        }
        let patterns = self.analyze_patterns();
        let ghost s0 = seq_view(improvements@);
        if patterns.function_count > 0 && patterns.result_returning_functions == 0 {
            improvements.push(
                improvement(
                    "Error Handling Architecture",
                    "Functions without Result return types",
                    "Use Result<T, E> return types for fallible operations",
                    "Google ADK emphasizes robust error handling. Functions that can fail should return Result types",
                ),
            );
        }
        let ghost s1 = seq_view(improvements@);
        assert(s1 =~= s0 + when(
            patterns.function_count > 0 && patterns.result_returning_functions == 0,
            (
                "Error Handling Architecture"@,
                "Functions without Result return types"@,
                "Use Result<T, E> return types for fallible operations"@,
                "Google ADK emphasizes robust error handling. Functions that can fail should return Result types"@,
            ),
        ));
        if patterns.function_count > 2 && patterns.async_functions == 0 {
            let io = lines_with(&self.lines, "std::fs::", "std::net::");
            let web = lines_with(&self.lines, "reqwest", "reqwest");
            if io.len() > 0 || web.len() > 0 {
                improvements.push(
                    improvement(
                        "Async Architecture",
                        "Synchronous I/O operations",
                        "Async/await pattern with tokio runtime",
                        "ADK applications benefit from async architecture for better concurrency and performance",
                    ),
                );
            }
        }
        let ghost s2 = seq_view(improvements@);
        if patterns.struct_count > 3 && patterns.impl_count == 0 {
            improvements.push(
                improvement(
                    "Code Organization",
                    "Structs without associated implementations",
                    "Group related functionality in impl blocks",
                    "ADK promotes clear code organization with methods grouped in impl blocks",
                ),
            );
        }
        let ghost s3 = seq_view(improvements@);
        if patterns.public_functions > patterns.function_count / 2 {
            improvements.push(
                improvement(
                    "API Design",
                    "Many public functions without clear API boundaries",
                    "Minimize public API surface, use pub(crate) for internal functions",
                    "ADK emphasizes clean API design with minimal public interfaces",
                ),
            );
        }
        assert(seq_view(improvements@) =~= architecture_spec(*self));
        improvements
    }

    /// Whether some public function or public struct exists: such items
    /// carry no checked documentation.
    fn has_undocumented_public_items(&self) -> (r: bool)
        ensures
            r == (tally(self.items@, Tally::PublicFunctions) > 0 || tally(
                self.items@,
                Tally::PublicStructs,
            ) > 0),
    {
        let functions = self.items_where(Tally::PublicFunctions);
        let structs = self.items_where(Tally::PublicStructs);
        functions.len() > 0 || structs.len() > 0
    }

    /// Compliance issues (see `compliance_spec`).
    pub fn compliance_issues(&self) -> (r: Vec<ComplianceIssue>)
        ensures
            seq_view(r@) == compliance_spec(*self),
    {
        let mut issues: Vec<ComplianceIssue> = Vec::new();
        if !self.has_valid_syntax() {
            issues.push(
                issue(
                    "Syntax Error",
                    String::from_str("Code contains syntax errors that prevent proper analysis"),
                    "Fix all syntax errors to ensure code compiles and follows Rust standards",
                ),
            );
            assert(seq_view(issues@) =~= compliance_spec(*self));
            return issues;
        }
        let patterns = self.analyze_patterns();
        if patterns.panic_usage.len() > 0 {
            let mut d = String::from_str("Found ");
            d.append(decimal_string(patterns.panic_usage.len() as u64).as_str());
            d.append(" panic! usage(s) which violate ADK error handling guidelines");
            issues.push(
                issue(
                    "Error Handling Compliance",
                    d,
                    "Replace panic! with proper Result-based error handling or graceful error recovery",
                ),
            );
        }
        if patterns.unwrap_usage.len() > 2 {
            let mut d = String::from_str("Excessive unwrap() usage (");
            d.append(decimal_string(patterns.unwrap_usage.len() as u64).as_str());
            d.append(" instances) may indicate poor error handling");
            issues.push(
                issue(
                    "Error Handling Compliance",
                    d,
                    "Replace unwrap() calls with proper error handling using ?, match, or if let patterns",
                ),
            );
        }
        if self.has_undocumented_public_items() {
            issues.push(
                issue(
                    "Documentation Compliance",
                    String::from_str("Public items missing documentation comments"),
                    "Add /// documentation comments to all public functions, structs, and modules following ADK documentation standards",
                ),
            );
        }
        if patterns.todo_usage.len() > 0 {
            let mut d = String::from_str("Found ");
            d.append(decimal_string(patterns.todo_usage.len() as u64).as_str());
            d.append(" incomplete implementation(s) (todo!/unimplemented!)");
            issues.push(
                issue(
                    "Implementation Completeness",
                    d,
                    "Complete all implementations or use proper feature flags for incomplete functionality",
                ),
            );
        }
        assert(seq_view(issues@) =~= compliance_spec(*self));
        issues
    }

    /// How many of the first 20 lines begin with `use `.
    fn count_import_lines(&self) -> (r: usize)
        ensures
            r == use_lines(head_lines(line_views(self.lines@))),
    {
        let ghost l = line_views(self.lines@);
        let n: usize = if self.lines.len() < 20 {
            self.lines.len()
        } else {
            20
        };
        assert(head_lines(l) =~= l.take(n as int));
        let mut count: usize = 0;
        let mut i: usize = 0;
        while i < n
            invariant
                l == line_views(self.lines@),
                n <= self.lines@.len(),
                i <= n,
                count <= i,
                count == use_lines(l.take(i as int)),
            decreases n - i,
        {
            assert(l.take(i + 1).drop_last() =~= l.take(i as int));
            assert(l.take(i + 1).last() == self.lines@[i as int]@);
            if trimmed_starts_with(self.lines[i].as_str(), "use ") {
                count = count + 1;
            }
            i = i + 1;
        }
        count
    }

    /// Organization suggestions for the file at `file_path` (see
    /// `organization_spec`).
    pub fn organization_suggestions(&self, file_path: &str) -> (r: Vec<OrganizationSuggestion>)
        ensures
            seq_view(r@) == organization_spec(*self, file_path@),
    {
        let mut suggestions: Vec<OrganizationSuggestion> = Vec::new();
        let patterns = self.analyze_patterns();
        let line_count = self.lines.len();
        let ghost s0 = seq_view(suggestions@);
        if line_count > 500 {
            let mut d = String::from_str("File is quite large (");
            d.append(decimal_string(line_count as u64).as_str());
            d.append(" lines) which may impact maintainability");
            suggestions.push(
                suggestion(
                    "File Size",
                    d,
                    "Consider splitting into smaller, focused modules following ADK organization patterns",
                ),
            );
        }
        let ghost s1 = seq_view(suggestions@);
        if (patterns.struct_count as u128) + (patterns.enum_count as u128) > 5 && !ends_with(
            file_path,
            "mod.rs",
        ) {
            suggestions.push(
                suggestion(
                    "Module Organization",
                    String::from_str("Many types defined in a single file"),
                    "Consider organizing related types into separate modules with a mod.rs file",
                ),
            );
        }
        let ghost s2 = seq_view(suggestions@);
        if patterns.function_count > 10 && patterns.impl_count == 0 {
            suggestions.push(
                suggestion(
                    "Code Organization",
                    String::from_str("Many standalone functions without clear grouping"),
                    "Group related functions into structs with impl blocks or separate modules",
                ),
            );
        }
        let ghost s3 = seq_view(suggestions@);
        let stem = file_stem(file_path);
        if crate::text::contains(stem.as_str(), "_") && !ends_with(stem.as_str(), "_test") {
            suggestions.push(
                suggestion(
                    "Naming Convention",
                    String::from_str("File name uses underscores"),
                    "Consider using kebab-case for file names following Rust conventions",
                ),
            );
        }
        let ghost s4 = seq_view(suggestions@);
        if self.count_import_lines() > 10 {
            suggestions.push(
                suggestion(
                    "Import Organization",
                    String::from_str("Many import statements may indicate complex dependencies"),
                    "Group imports by source (std, external crates, local modules) and consider reducing dependencies",
                ),
            );
        }
        assert(seq_view(suggestions@) =~= organization_spec(*self, file_path@));
        suggestions
    }
}

/// Translation opportunities in `content`, given the parser's report on it
/// (see `translation_spec`).
pub fn analyze_translation_opportunities(content: &str, parsed: Option<Vec<ItemFacts>>) -> (r: Vec<
    TranslationOpportunity,
>)
    ensures
        exists|a: RustCodeAnalyzer|
            a.describes(content@, parsed) && seq_view(r@) == #[trigger] translation_spec(a),
{
    let analyzer = RustCodeAnalyzer::new(content, parsed);
    analyzer.translation_opportunities()
}

/// Architectural improvements for `content`, given the parser's report on it
/// (see `architecture_spec`).
pub fn analyze_architectural_patterns(content: &str, parsed: Option<Vec<ItemFacts>>) -> (r: Vec<
    ArchitecturalImprovement,
>)
    ensures
        exists|a: RustCodeAnalyzer|
            a.describes(content@, parsed) && seq_view(r@) == #[trigger] architecture_spec(a),
{
    let analyzer = RustCodeAnalyzer::new(content, parsed);
    analyzer.architectural_improvements()
}

/// Compliance issues in `content`, given the parser's report on it (see
/// `compliance_spec`).
pub fn analyze_adk_compliance(content: &str, parsed: Option<Vec<ItemFacts>>) -> (r: Vec<
    ComplianceIssue,
>)
    ensures
        exists|a: RustCodeAnalyzer|
            a.describes(content@, parsed) && seq_view(r@) == #[trigger] compliance_spec(a),
{
    let analyzer = RustCodeAnalyzer::new(content, parsed);
    analyzer.compliance_issues()
}

/// Organization suggestions for the file at `file_path` holding `content`,
/// given the parser's report on it
/// (see `organization_spec`).
pub fn analyze_file_organization(
    file_path: &str,
    content: &str,
    parsed: Option<Vec<ItemFacts>>,
) -> (r: Vec<
    OrganizationSuggestion,
>)
    ensures
        exists|a: RustCodeAnalyzer|
            a.describes(content@, parsed) && seq_view(r@) == #[trigger] organization_spec(a, file_path@),
{
    let analyzer = RustCodeAnalyzer::new(content, parsed);
    analyzer.organization_suggestions(file_path)
}

} // verus!
