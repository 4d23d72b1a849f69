//! The grammars and queries of the tree-sitter language crates, and the
//! highlight configurations tree-sitter makes of them.

use crate::languages::Language;
use tree_sitter_highlight::HighlightConfiguration;
use vstd::prelude::*;

verus! {

/// A highlight, injection or locals query that a language crate ships.
#[derive(Copy, Clone, Debug, PartialEq, Eq, Structural)]
pub enum GrammarQuery {
    JsonHighlights,
    MarkdownInjectionBlock,
    TomlHighlights,
    YamlHighlights,
    RustHighlights,
    RustInjections,
    GoHighlights,
    CHighlights,
    CppHighlights,
    JavaScriptHighlights,
    JavaScriptInjections,
    JavaScriptLocals,
    ZigHighlights,
    ZigInjections,
    JavaHighlights,
    PythonHighlights,
    RubyHighlights,
    RubyLocals,
    BashHighlights,
    HtmlHighlights,
    CssHighlights,
    ScalaHighlights,
    ScalaLocals,
    MakeHighlights,
}

/// The text of the query constant that `q` stands for.
pub uninterp spec fn query_source(q: GrammarQuery) -> Seq<char>;

/// Whether `tree_sitter_highlight::HighlightConfiguration::new` accepts the
/// grammar of `lang` with these highlights, injections and locals queries
/// (it refuses a query that does not parse against the grammar).
pub uninterp spec fn config_accepts(
    lang: Language,
    highlights: Seq<char>,
    injections: Seq<char>,
    locals: Seq<char>,
) -> bool;

/// The query constant `tree_sitter_json::HIGHLIGHTS_QUERY`.
#[verifier::external_body]
pub(crate) fn json_highlights_query() -> (q: &'static str)
    ensures
        q@ == query_source(GrammarQuery::JsonHighlights),
{
    tree_sitter_json::HIGHLIGHTS_QUERY
}

/// The query constant `tree_sitter_md::INJECTION_QUERY_BLOCK`.
#[verifier::external_body]
pub(crate) fn markdown_injection_block_query() -> (q: &'static str)
    ensures
        q@ == query_source(GrammarQuery::MarkdownInjectionBlock),
{
    tree_sitter_md::INJECTION_QUERY_BLOCK
}

/// The query constant `tree_sitter_toml_ng::HIGHLIGHTS_QUERY`.
#[verifier::external_body]
pub(crate) fn toml_highlights_query() -> (q: &'static str)
    ensures
        q@ == query_source(GrammarQuery::TomlHighlights),
{
    tree_sitter_toml_ng::HIGHLIGHTS_QUERY
}

/// The query constant `tree_sitter_yaml::HIGHLIGHTS_QUERY`.
#[verifier::external_body]
pub(crate) fn yaml_highlights_query() -> (q: &'static str)
    ensures
        q@ == query_source(GrammarQuery::YamlHighlights),
{
    tree_sitter_yaml::HIGHLIGHTS_QUERY
}

/// The query constant `tree_sitter_rust::HIGHLIGHTS_QUERY`.
#[verifier::external_body]
pub(crate) fn rust_highlights_query() -> (q: &'static str)
    ensures
        q@ == query_source(GrammarQuery::RustHighlights),
{
    tree_sitter_rust::HIGHLIGHTS_QUERY
}

/// The query constant `tree_sitter_rust::INJECTIONS_QUERY`.
#[verifier::external_body]
pub(crate) fn rust_injections_query() -> (q: &'static str)
    ensures
        q@ == query_source(GrammarQuery::RustInjections),
{
    tree_sitter_rust::INJECTIONS_QUERY
}

/// The query constant `tree_sitter_go::HIGHLIGHTS_QUERY`.
#[verifier::external_body]
pub(crate) fn go_highlights_query() -> (q: &'static str)
    ensures
        q@ == query_source(GrammarQuery::GoHighlights),
{
    tree_sitter_go::HIGHLIGHTS_QUERY
}

/// The query constant `tree_sitter_c::HIGHLIGHT_QUERY`.
#[verifier::external_body]
pub(crate) fn c_highlights_query() -> (q: &'static str)
    ensures
        q@ == query_source(GrammarQuery::CHighlights),
{
    tree_sitter_c::HIGHLIGHT_QUERY
}

/// The query constant `tree_sitter_cpp::HIGHLIGHT_QUERY`.
#[verifier::external_body]
pub(crate) fn cpp_highlights_query() -> (q: &'static str)
    ensures
        q@ == query_source(GrammarQuery::CppHighlights),
{
    tree_sitter_cpp::HIGHLIGHT_QUERY
}

/// The query constant `tree_sitter_javascript::HIGHLIGHT_QUERY`.
#[verifier::external_body]
pub(crate) fn javascript_highlights_query() -> (q: &'static str)
    ensures
        q@ == query_source(GrammarQuery::JavaScriptHighlights),
{
    tree_sitter_javascript::HIGHLIGHT_QUERY
}

/// The query constant `tree_sitter_javascript::INJECTIONS_QUERY`.
#[verifier::external_body]
pub(crate) fn javascript_injections_query() -> (q: &'static str)
    ensures
        q@ == query_source(GrammarQuery::JavaScriptInjections),
{
    tree_sitter_javascript::INJECTIONS_QUERY
}

/// The query constant `tree_sitter_javascript::LOCALS_QUERY`.
#[verifier::external_body]
pub(crate) fn javascript_locals_query() -> (q: &'static str)
    ensures
        q@ == query_source(GrammarQuery::JavaScriptLocals),
{
    tree_sitter_javascript::LOCALS_QUERY
}

/// The query constant `tree_sitter_zig::HIGHLIGHTS_QUERY`.
#[verifier::external_body]
pub(crate) fn zig_highlights_query() -> (q: &'static str)
    ensures
        q@ == query_source(GrammarQuery::ZigHighlights),
{
    tree_sitter_zig::HIGHLIGHTS_QUERY
}

/// The query constant `tree_sitter_zig::INJECTIONS_QUERY`.
#[verifier::external_body]
pub(crate) fn zig_injections_query() -> (q: &'static str)
    ensures
        q@ == query_source(GrammarQuery::ZigInjections),
{
    tree_sitter_zig::INJECTIONS_QUERY
}

/// The query constant `tree_sitter_java::HIGHLIGHTS_QUERY`.
#[verifier::external_body]
pub(crate) fn java_highlights_query() -> (q: &'static str)
    ensures
        q@ == query_source(GrammarQuery::JavaHighlights),
{
    tree_sitter_java::HIGHLIGHTS_QUERY
}

/// The query constant `tree_sitter_python::HIGHLIGHTS_QUERY`.
#[verifier::external_body]
pub(crate) fn python_highlights_query() -> (q: &'static str)
    ensures
        q@ == query_source(GrammarQuery::PythonHighlights),
{
    tree_sitter_python::HIGHLIGHTS_QUERY
}

/// The query constant `tree_sitter_ruby::HIGHLIGHTS_QUERY`.
#[verifier::external_body]
pub(crate) fn ruby_highlights_query() -> (q: &'static str)
    ensures
        q@ == query_source(GrammarQuery::RubyHighlights),
{
    tree_sitter_ruby::HIGHLIGHTS_QUERY
}

/// The query constant `tree_sitter_ruby::LOCALS_QUERY`.
#[verifier::external_body]
pub(crate) fn ruby_locals_query() -> (q: &'static str)
    ensures
        q@ == query_source(GrammarQuery::RubyLocals),
{
    tree_sitter_ruby::LOCALS_QUERY
}

/// The query constant `tree_sitter_bash::HIGHLIGHT_QUERY`.
#[verifier::external_body]
pub(crate) fn bash_highlights_query() -> (q: &'static str)
    ensures
        q@ == query_source(GrammarQuery::BashHighlights),
{
    tree_sitter_bash::HIGHLIGHT_QUERY
}

/// The query constant `tree_sitter_html::HIGHLIGHTS_QUERY`.
#[verifier::external_body]
pub(crate) fn html_highlights_query() -> (q: &'static str)
    ensures
        q@ == query_source(GrammarQuery::HtmlHighlights),
{
    tree_sitter_html::HIGHLIGHTS_QUERY
}

/// The query constant `tree_sitter_css::HIGHLIGHTS_QUERY`.
#[verifier::external_body]
pub(crate) fn css_highlights_query() -> (q: &'static str)
    ensures
        q@ == query_source(GrammarQuery::CssHighlights),
{
    tree_sitter_css::HIGHLIGHTS_QUERY
}

/// The query constant `tree_sitter_scala::HIGHLIGHTS_QUERY`.
#[verifier::external_body]
pub(crate) fn scala_highlights_query() -> (q: &'static str)
    ensures
        q@ == query_source(GrammarQuery::ScalaHighlights),
{
    tree_sitter_scala::HIGHLIGHTS_QUERY
}

/// The query constant `tree_sitter_scala::LOCALS_QUERY`.
#[verifier::external_body]
pub(crate) fn scala_locals_query() -> (q: &'static str)
    ensures
        q@ == query_source(GrammarQuery::ScalaLocals),
{
    tree_sitter_scala::LOCALS_QUERY
}

/// The query constant `tree_sitter_make::HIGHLIGHTS_QUERY`.
#[verifier::external_body]
pub(crate) fn make_highlights_query() -> (q: &'static str)
    ensures
        q@ == query_source(GrammarQuery::MakeHighlights),
{
    tree_sitter_make::HIGHLIGHTS_QUERY
}

/// `HighlightConfiguration::new` on the grammar `tree_sitter_json::LANGUAGE`,
/// named by the grammar's own name, with the given queries; `None` when it
/// refuses them.
#[verifier::external_body]
pub(crate) fn json_configuration(highlights: &str, injections: &str, locals: &str) -> (r: Option<
    HighlightConfiguration,
>)
    ensures
        r is Some <==> config_accepts(Language::Json, highlights@, injections@, locals@),
{
    let language = tree_sitter::Language::new(tree_sitter_json::LANGUAGE);
    let name = language.name().unwrap_or("").to_string();
    HighlightConfiguration::new(language, name, highlights, injections, locals).ok()
}

/// `HighlightConfiguration::new` on the grammar `tree_sitter_md::LANGUAGE`,
/// named by the grammar's own name, with the given queries; `None` when it
/// refuses them.
#[verifier::external_body]
pub(crate) fn md_configuration(highlights: &str, injections: &str, locals: &str) -> (r: Option<
    HighlightConfiguration,
>)
    ensures
        r is Some <==> config_accepts(Language::Markdown, highlights@, injections@, locals@),
{
    let language = tree_sitter::Language::new(tree_sitter_md::LANGUAGE);
    let name = language.name().unwrap_or("").to_string();
    HighlightConfiguration::new(language, name, highlights, injections, locals).ok()
}

/// `HighlightConfiguration::new` on the grammar `tree_sitter_toml_ng::LANGUAGE`,
/// named by the grammar's own name, with the given queries; `None` when it
/// refuses them.
#[verifier::external_body]
pub(crate) fn toml_ng_configuration(highlights: &str, injections: &str, locals: &str) -> (r: Option<
    HighlightConfiguration,
>)
    ensures
        r is Some <==> config_accepts(Language::Toml, highlights@, injections@, locals@),
{
    let language = tree_sitter::Language::new(tree_sitter_toml_ng::LANGUAGE);
    let name = language.name().unwrap_or("").to_string();
    HighlightConfiguration::new(language, name, highlights, injections, locals).ok()
}

/// `HighlightConfiguration::new` on the grammar `tree_sitter_yaml::LANGUAGE`,
/// named by the grammar's own name, with the given queries; `None` when it
/// refuses them.
#[verifier::external_body]
pub(crate) fn yaml_configuration(highlights: &str, injections: &str, locals: &str) -> (r: Option<
    HighlightConfiguration,
>)
    ensures
        r is Some <==> config_accepts(Language::Yaml, highlights@, injections@, locals@),
{
    let language = tree_sitter::Language::new(tree_sitter_yaml::LANGUAGE);
    let name = language.name().unwrap_or("").to_string();
    HighlightConfiguration::new(language, name, highlights, injections, locals).ok()
}

/// `HighlightConfiguration::new` on the grammar `tree_sitter_rust::LANGUAGE`,
/// named by the grammar's own name, with the given queries; `None` when it
/// refuses them.
#[verifier::external_body]
pub(crate) fn rust_configuration(highlights: &str, injections: &str, locals: &str) -> (r: Option<
    HighlightConfiguration,
>)
    ensures
        r is Some <==> config_accepts(Language::Rust, highlights@, injections@, locals@),
{
    let language = tree_sitter::Language::new(tree_sitter_rust::LANGUAGE);
    let name = language.name().unwrap_or("").to_string();
    HighlightConfiguration::new(language, name, highlights, injections, locals).ok()
}

/// `HighlightConfiguration::new` on the grammar `tree_sitter_go::LANGUAGE`,
/// named by the grammar's own name, with the given queries; `None` when it
/// refuses them.
#[verifier::external_body]
pub(crate) fn go_configuration(highlights: &str, injections: &str, locals: &str) -> (r: Option<
    HighlightConfiguration,
>)
    ensures
        r is Some <==> config_accepts(Language::Go, highlights@, injections@, locals@),
{
    let language = tree_sitter::Language::new(tree_sitter_go::LANGUAGE);
    let name = language.name().unwrap_or("").to_string();
    HighlightConfiguration::new(language, name, highlights, injections, locals).ok()
}

/// `HighlightConfiguration::new` on the grammar `tree_sitter_c::LANGUAGE`,
/// named by the grammar's own name, with the given queries; `None` when it
/// refuses them.
#[verifier::external_body]
pub(crate) fn c_configuration(highlights: &str, injections: &str, locals: &str) -> (r: Option<
    HighlightConfiguration,
>)
    ensures
        r is Some <==> config_accepts(Language::C, highlights@, injections@, locals@),
{
    let language = tree_sitter::Language::new(tree_sitter_c::LANGUAGE);
    let name = language.name().unwrap_or("").to_string();
    HighlightConfiguration::new(language, name, highlights, injections, locals).ok()
}

/// `HighlightConfiguration::new` on the grammar `tree_sitter_cpp::LANGUAGE`,
/// named by the grammar's own name, with the given queries; `None` when it
/// refuses them.
#[verifier::external_body]
pub(crate) fn cpp_configuration(highlights: &str, injections: &str, locals: &str) -> (r: Option<
    HighlightConfiguration,
>)
    ensures
        r is Some <==> config_accepts(Language::Cpp, highlights@, injections@, locals@),
{
    let language = tree_sitter::Language::new(tree_sitter_cpp::LANGUAGE);
    let name = language.name().unwrap_or("").to_string();
    HighlightConfiguration::new(language, name, highlights, injections, locals).ok()
}

/// `HighlightConfiguration::new` on the grammar `tree_sitter_javascript::LANGUAGE`,
/// named by the grammar's own name, with the given queries; `None` when it
/// refuses them.
#[verifier::external_body]
pub(crate) fn javascript_configuration(highlights: &str, injections: &str, locals: &str) -> (r: Option<
    HighlightConfiguration,
>)
    ensures
        r is Some <==> config_accepts(Language::JavaScript, highlights@, injections@, locals@),
{
    let language = tree_sitter::Language::new(tree_sitter_javascript::LANGUAGE);
    let name = language.name().unwrap_or("").to_string();
    HighlightConfiguration::new(language, name, highlights, injections, locals).ok()
}

/// `HighlightConfiguration::new` on the grammar `tree_sitter_zig::LANGUAGE`,
/// named by the grammar's own name, with the given queries; `None` when it
/// refuses them.
#[verifier::external_body]
pub(crate) fn zig_configuration(highlights: &str, injections: &str, locals: &str) -> (r: Option<
    HighlightConfiguration,
>)
    ensures
        r is Some <==> config_accepts(Language::Zig, highlights@, injections@, locals@),
{
    let language = tree_sitter::Language::new(tree_sitter_zig::LANGUAGE);
    let name = language.name().unwrap_or("").to_string();
    HighlightConfiguration::new(language, name, highlights, injections, locals).ok()
}

/// `HighlightConfiguration::new` on the grammar `tree_sitter_java::LANGUAGE`,
/// named by the grammar's own name, with the given queries; `None` when it
/// refuses them.
#[verifier::external_body]
pub(crate) fn java_configuration(highlights: &str, injections: &str, locals: &str) -> (r: Option<
    HighlightConfiguration,
>)
    ensures
        r is Some <==> config_accepts(Language::Java, highlights@, injections@, locals@),
{
    let language = tree_sitter::Language::new(tree_sitter_java::LANGUAGE);
    let name = language.name().unwrap_or("").to_string();
    HighlightConfiguration::new(language, name, highlights, injections, locals).ok()
}

/// `HighlightConfiguration::new` on the grammar `tree_sitter_python::LANGUAGE`,
/// named by the grammar's own name, with the given queries; `None` when it
/// refuses them.
#[verifier::external_body]
pub(crate) fn python_configuration(highlights: &str, injections: &str, locals: &str) -> (r: Option<
    HighlightConfiguration,
>)
    ensures
        r is Some <==> config_accepts(Language::Python, highlights@, injections@, locals@),
{
    let language = tree_sitter::Language::new(tree_sitter_python::LANGUAGE);
    let name = language.name().unwrap_or("").to_string();
    HighlightConfiguration::new(language, name, highlights, injections, locals).ok()
}

/// `HighlightConfiguration::new` on the grammar `tree_sitter_ruby::LANGUAGE`,
/// named by the grammar's own name, with the given queries; `None` when it
/// refuses them.
#[verifier::external_body]
pub(crate) fn ruby_configuration(highlights: &str, injections: &str, locals: &str) -> (r: Option<
    HighlightConfiguration,
>)
    ensures
        r is Some <==> config_accepts(Language::Ruby, highlights@, injections@, locals@),
{
    let language = tree_sitter::Language::new(tree_sitter_ruby::LANGUAGE);
    let name = language.name().unwrap_or("").to_string();
    HighlightConfiguration::new(language, name, highlights, injections, locals).ok()
}

/// `HighlightConfiguration::new` on the grammar `tree_sitter_bash::LANGUAGE`,
/// named by the grammar's own name, with the given queries; `None` when it
/// refuses them.
#[verifier::external_body]
pub(crate) fn bash_configuration(highlights: &str, injections: &str, locals: &str) -> (r: Option<
    HighlightConfiguration,
>)
    ensures
        r is Some <==> config_accepts(Language::Bash, highlights@, injections@, locals@),
{
    let language = tree_sitter::Language::new(tree_sitter_bash::LANGUAGE);
    let name = language.name().unwrap_or("").to_string();
    HighlightConfiguration::new(language, name, highlights, injections, locals).ok()
}

/// `HighlightConfiguration::new` on the grammar `tree_sitter_html::LANGUAGE`,
/// named by the grammar's own name, with the given queries; `None` when it
/// refuses them.
#[verifier::external_body]
pub(crate) fn html_configuration(highlights: &str, injections: &str, locals: &str) -> (r: Option<
    HighlightConfiguration,
>)
    ensures
        r is Some <==> config_accepts(Language::Html, highlights@, injections@, locals@),
{
    let language = tree_sitter::Language::new(tree_sitter_html::LANGUAGE);
    let name = language.name().unwrap_or("").to_string();
    HighlightConfiguration::new(language, name, highlights, injections, locals).ok()
}

/// `HighlightConfiguration::new` on the grammar `tree_sitter_css::LANGUAGE`,
/// named by the grammar's own name, with the given queries; `None` when it
/// refuses them.
#[verifier::external_body]
pub(crate) fn css_configuration(highlights: &str, injections: &str, locals: &str) -> (r: Option<
    HighlightConfiguration,
>)
    ensures
        r is Some <==> config_accepts(Language::Css, highlights@, injections@, locals@),
{
    let language = tree_sitter::Language::new(tree_sitter_css::LANGUAGE);
    let name = language.name().unwrap_or("").to_string();
    HighlightConfiguration::new(language, name, highlights, injections, locals).ok()
}

/// `HighlightConfiguration::new` on the grammar `tree_sitter_swift::LANGUAGE`,
/// named by the grammar's own name, with the given queries; `None` when it
/// refuses them.
#[verifier::external_body]
pub(crate) fn swift_configuration(highlights: &str, injections: &str, locals: &str) -> (r: Option<
    HighlightConfiguration,
>)
    ensures
        r is Some <==> config_accepts(Language::Swift, highlights@, injections@, locals@),
{
    let language = tree_sitter::Language::new(tree_sitter_swift::LANGUAGE);
    let name = language.name().unwrap_or("").to_string();
    HighlightConfiguration::new(language, name, highlights, injections, locals).ok()
}

/// `HighlightConfiguration::new` on the grammar `tree_sitter_scala::LANGUAGE`,
/// named by the grammar's own name, with the given queries; `None` when it
/// refuses them.
#[verifier::external_body]
pub(crate) fn scala_configuration(highlights: &str, injections: &str, locals: &str) -> (r: Option<
    HighlightConfiguration,
>)
    ensures
        r is Some <==> config_accepts(Language::Scala, highlights@, injections@, locals@),
{
    let language = tree_sitter::Language::new(tree_sitter_scala::LANGUAGE);
    let name = language.name().unwrap_or("").to_string();
    HighlightConfiguration::new(language, name, highlights, injections, locals).ok()
}

/// `HighlightConfiguration::new` on the grammar `tree_sitter_c_sharp::LANGUAGE`,
/// named by the grammar's own name, with the given queries; `None` when it
/// refuses them.
#[verifier::external_body]
pub(crate) fn c_sharp_configuration(highlights: &str, injections: &str, locals: &str) -> (r: Option<
    HighlightConfiguration,
>)
    ensures
        r is Some <==> config_accepts(Language::CSharp, highlights@, injections@, locals@),
{
    let language = tree_sitter::Language::new(tree_sitter_c_sharp::LANGUAGE);
    let name = language.name().unwrap_or("").to_string();
    HighlightConfiguration::new(language, name, highlights, injections, locals).ok()
}

/// `HighlightConfiguration::new` on the grammar `tree_sitter_graphql::LANGUAGE`,
/// named by the grammar's own name, with the given queries; `None` when it
/// refuses them.
#[verifier::external_body]
pub(crate) fn graphql_configuration(highlights: &str, injections: &str, locals: &str) -> (r: Option<
    HighlightConfiguration,
>)
    ensures
        r is Some <==> config_accepts(Language::GraphQL, highlights@, injections@, locals@),
{
    let language = tree_sitter::Language::new(tree_sitter_graphql::LANGUAGE);
    let name = language.name().unwrap_or("").to_string();
    HighlightConfiguration::new(language, name, highlights, injections, locals).ok()
}

/// `HighlightConfiguration::new` on the grammar `tree_sitter_proto::LANGUAGE`,
/// named by the grammar's own name, with the given queries; `None` when it
/// refuses them.
#[verifier::external_body]
pub(crate) fn proto_configuration(highlights: &str, injections: &str, locals: &str) -> (r: Option<
    HighlightConfiguration,
>)
    ensures
        r is Some <==> config_accepts(Language::Proto, highlights@, injections@, locals@),
{
    let language = tree_sitter::Language::new(tree_sitter_proto::LANGUAGE);
    let name = language.name().unwrap_or("").to_string();
    HighlightConfiguration::new(language, name, highlights, injections, locals).ok()
}

/// `HighlightConfiguration::new` on the grammar `tree_sitter_make::LANGUAGE`,
/// named by the grammar's own name, with the given queries; `None` when it
/// refuses them.
#[verifier::external_body]
pub(crate) fn make_configuration(highlights: &str, injections: &str, locals: &str) -> (r: Option<
    HighlightConfiguration,
>)
    ensures
        r is Some <==> config_accepts(Language::Make, highlights@, injections@, locals@),
{
    let language = tree_sitter::Language::new(tree_sitter_make::LANGUAGE);
    let name = language.name().unwrap_or("").to_string();
    HighlightConfiguration::new(language, name, highlights, injections, locals).ok()
}

/// `HighlightConfiguration::new` on the grammar `tree_sitter_cmake::LANGUAGE`,
/// named by the grammar's own name, with the given queries; `None` when it
/// refuses them.
#[verifier::external_body]
pub(crate) fn cmake_configuration(highlights: &str, injections: &str, locals: &str) -> (r: Option<
    HighlightConfiguration,
>)
    ensures
        r is Some <==> config_accepts(Language::CMake, highlights@, injections@, locals@),
{
    let language = tree_sitter::Language::new(tree_sitter_cmake::LANGUAGE);
    let name = language.name().unwrap_or("").to_string();
    HighlightConfiguration::new(language, name, highlights, injections, locals).ok()
}

} // verus!
