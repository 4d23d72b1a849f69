//! The languages the syntax highlighter knows, their names, and the
//! grammar and queries each is highlighted with.

use crate::grammars::{
    config_accepts,
    query_source,
    GrammarQuery,
    json_highlights_query,
    markdown_injection_block_query,
    toml_highlights_query,
    yaml_highlights_query,
    rust_highlights_query,
    rust_injections_query,
    go_highlights_query,
    c_highlights_query,
    cpp_highlights_query,
    javascript_highlights_query,
    javascript_injections_query,
    javascript_locals_query,
    zig_highlights_query,
    zig_injections_query,
    java_highlights_query,
    python_highlights_query,
    ruby_highlights_query,
    ruby_locals_query,
    bash_highlights_query,
    html_highlights_query,
    css_highlights_query,
    scala_highlights_query,
    scala_locals_query,
    make_highlights_query,
    json_configuration,
    md_configuration,
    toml_ng_configuration,
    yaml_configuration,
    rust_configuration,
    go_configuration,
    c_configuration,
    cpp_configuration,
    javascript_configuration,
    zig_configuration,
    java_configuration,
    python_configuration,
    ruby_configuration,
    bash_configuration,
    html_configuration,
    css_configuration,
    swift_configuration,
    scala_configuration,
    c_sharp_configuration,
    graphql_configuration,
    proto_configuration,
    make_configuration,
    cmake_configuration,
};
use crate::highlight::{highlight_names, highlight_names_list};
use tree_sitter_highlight::HighlightConfiguration;
use vstd::prelude::*;

verus! {

/// Whether two strings hold the same characters.
pub fn same_text(a: &str, b: &str) -> (r: bool)
    ensures
        r == (a@ == b@),
{
    let n = a.unicode_len();
    if n != b.unicode_len() {
        return false;
    }
    let mut i: usize = 0;
    while i < n
        invariant
            n == a@.len(),
            n == b@.len(),
            i <= n,
            forall|j: int| 0 <= j < i ==> a@[j] == b@[j],
        decreases n - i,
    {
        if a.get_char(i) != b.get_char(i) {
            return false;
        }
        i += 1;
    }
    assert(a@ =~= b@);
    true
}

/// A language with a tree-sitter grammar.
#[derive(Copy, Clone, Debug, PartialEq, Eq, Structural)]
pub enum Language {
    Json,
    Markdown,
    Toml,
    Yaml,
    Rust,
    Go,
    C,
    Cpp,
    JavaScript,
    Zig,
    Java,
    Python,
    Ruby,
    Bash,
    Html,
    Css,
    Swift,
    Scala,
    CSharp,
    GraphQL,
    Proto,
    Make,
    CMake,
}

/// The language a name (such as `"rust"` or `"rs"`) stands for.
pub open spec fn language_named(name: Seq<char>) -> Option<Language> {
    if name == "json"@ {
        Some(Language::Json)
    } else if name == "markdown"@ || name == "md"@ {
        Some(Language::Markdown)
    } else if name == "toml"@ {
        Some(Language::Toml)
    } else if name == "yaml"@ || name == "yml"@ {
        Some(Language::Yaml)
    } else if name == "rust"@ || name == "rs"@ {
        Some(Language::Rust)
    } else if name == "go"@ {
        Some(Language::Go)
    } else if name == "c"@ {
        Some(Language::C)
    } else if name == "cpp"@ || name == "c++"@ {
        Some(Language::Cpp)
    } else if name == "javascript"@ || name == "js"@ {
        Some(Language::JavaScript)
    } else if name == "zig"@ {
        Some(Language::Zig)
    } else if name == "java"@ {
        Some(Language::Java)
    } else if name == "python"@ || name == "py"@ {
        Some(Language::Python)
    } else if name == "ruby"@ || name == "rb"@ {
        Some(Language::Ruby)
    } else if name == "bash"@ || name == "sh"@ {
        Some(Language::Bash)
    } else if name == "html"@ {
        Some(Language::Html)
    } else if name == "css"@ {
        Some(Language::Css)
    } else if name == "swift"@ {
        Some(Language::Swift)
    } else if name == "scala"@ {
        Some(Language::Scala)
    } else if name == "csharp"@ || name == "cs"@ {
        Some(Language::CSharp)
    } else if name == "graphql"@ {
        Some(Language::GraphQL)
    } else if name == "proto"@ {
        Some(Language::Proto)
    } else if name == "make"@ || name == "makefile"@ {
        Some(Language::Make)
    } else if name == "cmake"@ {
        Some(Language::CMake)
    } else {
        None
    }
}

impl Language {
    /// The language of a name or file extension, `None` for an unknown one.
    pub fn from_str(s: &str) -> (r: Option<Language>)
        ensures
            r == language_named(s@),
    {
        if same_text(s, "json") {
            Some(Language::Json)
        } else if same_text(s, "markdown") || same_text(s, "md") {
            Some(Language::Markdown)
        } else if same_text(s, "toml") {
            Some(Language::Toml)
        } else if same_text(s, "yaml") || same_text(s, "yml") {
            Some(Language::Yaml)
        } else if same_text(s, "rust") || same_text(s, "rs") {
            Some(Language::Rust)
        } else if same_text(s, "go") {
            Some(Language::Go)
        } else if same_text(s, "c") {
            Some(Language::C)
        } else if same_text(s, "cpp") || same_text(s, "c++") {
            Some(Language::Cpp)
        } else if same_text(s, "javascript") || same_text(s, "js") {
            Some(Language::JavaScript)
        } else if same_text(s, "zig") {
            Some(Language::Zig)
        } else if same_text(s, "java") {
            Some(Language::Java)
        } else if same_text(s, "python") || same_text(s, "py") {
            Some(Language::Python)
        } else if same_text(s, "ruby") || same_text(s, "rb") {
            Some(Language::Ruby)
        } else if same_text(s, "bash") || same_text(s, "sh") {
            Some(Language::Bash)
        } else if same_text(s, "html") {
            Some(Language::Html)
        } else if same_text(s, "css") {
            Some(Language::Css)
        } else if same_text(s, "swift") {
            Some(Language::Swift)
        } else if same_text(s, "scala") {
            Some(Language::Scala)
        } else if same_text(s, "csharp") || same_text(s, "cs") {
            Some(Language::CSharp)
        } else if same_text(s, "graphql") {
            Some(Language::GraphQL)
        } else if same_text(s, "proto") {
            Some(Language::Proto)
        } else if same_text(s, "make") || same_text(s, "makefile") {
            Some(Language::Make)
        } else if same_text(s, "cmake") {
            Some(Language::CMake)
        } else {
            None
        }
    }
}

/// The queries a language is configured with, in the slots of highlights,
/// injections and locals; `None` for an empty query.
pub open spec fn query_slots(lang: Language) -> (Option<GrammarQuery>, Option<GrammarQuery>, Option<GrammarQuery>) {
    match lang {
        Language::Json => (Some(GrammarQuery::JsonHighlights), None, None),
        Language::Markdown => (Some(GrammarQuery::MarkdownInjectionBlock), Some(GrammarQuery::MarkdownInjectionBlock), None),
        Language::Toml => (Some(GrammarQuery::TomlHighlights), None, None),
        Language::Yaml => (Some(GrammarQuery::YamlHighlights), None, None),
        Language::Rust => (Some(GrammarQuery::RustHighlights), Some(GrammarQuery::RustInjections), None),
        Language::Go => (Some(GrammarQuery::GoHighlights), None, None),
        Language::C => (Some(GrammarQuery::CHighlights), None, None),
        Language::Cpp => (Some(GrammarQuery::CppHighlights), None, None),
        Language::JavaScript => (Some(GrammarQuery::JavaScriptHighlights), Some(GrammarQuery::JavaScriptInjections), Some(GrammarQuery::JavaScriptLocals)),
        Language::Zig => (Some(GrammarQuery::ZigHighlights), Some(GrammarQuery::ZigInjections), None),
        Language::Java => (Some(GrammarQuery::JavaHighlights), None, None),
        Language::Python => (Some(GrammarQuery::PythonHighlights), None, None),
        Language::Ruby => (Some(GrammarQuery::RubyHighlights), None, Some(GrammarQuery::RubyLocals)),
        Language::Bash => (Some(GrammarQuery::BashHighlights), None, None),
        Language::Html => (Some(GrammarQuery::HtmlHighlights), None, None),
        Language::Css => (Some(GrammarQuery::CssHighlights), None, None),
        Language::Swift => (None, None, None),
        Language::Scala => (Some(GrammarQuery::ScalaHighlights), None, Some(GrammarQuery::ScalaLocals)),
        Language::CSharp => (None, None, None),
        Language::GraphQL => (None, None, None),
        Language::Proto => (None, None, None),
        Language::Make => (Some(GrammarQuery::MakeHighlights), None, None),
        Language::CMake => (None, None, None),
    }
}

/// The text of a query slot: the query's text, or the empty text.
pub open spec fn slot_source(q: Option<GrammarQuery>) -> Seq<char> {
    match q {
        Some(q) => query_source(q),
        None => Seq::empty(),
    }
}

/// Whether tree-sitter accepts the grammar and the queries of `lang`.
pub open spec fn language_accepted(lang: Language) -> bool {
    let (h, i, l) = query_slots(lang);
    config_accepts(lang, slot_source(h), slot_source(i), slot_source(l))
}

/// What a highlight configuration was made for: the language, and the
/// highlight names it was configured with.
pub struct LanguageConfigView {
    pub lang: Language,
    pub names: Seq<Seq<char>>,
}

/// The texts of a list of names.
pub open spec fn names_view(names: Seq<&'static str>) -> Seq<Seq<char>> {
    names.map_values(|s: &'static str| s@)
}

/// The highlight configuration of a language, made by [`Language::build`]
/// and configured for a list of highlight names.
pub struct LanguageConfig {
    lang: Language,
    names: Vec<&'static str>,
    pub(crate) config: HighlightConfiguration,
}

impl View for LanguageConfig {
    type V = LanguageConfigView;

    closed spec fn view(&self) -> LanguageConfigView {
        LanguageConfigView { lang: self.lang, names: names_view(self.names@) }
    }
}

impl LanguageConfig {
    /// The language the configuration was made for.
    pub fn language(&self) -> (l: Language)
        ensures
            l == self@.lang,
    {
        self.lang
    }

    /// The highlight names the configuration was configured with.
    pub fn names(&self) -> (names: &Vec<&'static str>)
        ensures
            names_view(names@) == self@.names,
    {
        &self.names
    }
}

/// `HighlightConfiguration::configure` on the configuration of `config`
/// with `names`, which it records as the names it is configured with: each
/// capture of the queries is given, as its highlight, the index of the name
/// in `names` whose dot-separated parts it holds most of. What that numbering
/// gives shows only in the events of `highlight_events`.
#[verifier::external_body]
fn configure(config: &mut LanguageConfig, names: Vec<&'static str>)
    ensures
        final(config)@ == (LanguageConfigView { names: names_view(names@), ..old(config)@ }),
{
    config.config.configure(&names);
    config.names = names;
}

/// The text of the language's highlights query (empty when it has
/// none).
pub fn highlights_query(lang: Language) -> (q: &'static str)
    ensures
        q@ == slot_source(query_slots(lang).0),
{
    proof {
        reveal_strlit("");
        assert(""@ =~= Seq::<char>::empty());
    }
    match lang {
        Language::Json => json_highlights_query(),
        Language::Markdown => markdown_injection_block_query(),
        Language::Toml => toml_highlights_query(),
        Language::Yaml => yaml_highlights_query(),
        Language::Rust => rust_highlights_query(),
        Language::Go => go_highlights_query(),
        Language::C => c_highlights_query(),
        Language::Cpp => cpp_highlights_query(),
        Language::JavaScript => javascript_highlights_query(),
        Language::Zig => zig_highlights_query(),
        Language::Java => java_highlights_query(),
        Language::Python => python_highlights_query(),
        Language::Ruby => ruby_highlights_query(),
        Language::Bash => bash_highlights_query(),
        Language::Html => html_highlights_query(),
        Language::Css => css_highlights_query(),
        Language::Swift => "",
        Language::Scala => scala_highlights_query(),
        Language::CSharp => "",
        Language::GraphQL => "",
        Language::Proto => "",
        Language::Make => make_highlights_query(),
        Language::CMake => "",
    }
}

impl Language {
    /// The highlight configuration of the language, from its grammar and
    /// the queries of [`query_slots`], configured for the library's
    /// highlight names; `None` when tree-sitter refuses them.
    pub fn build(&self) -> (r: Option<LanguageConfig>)
        ensures
            r is Some <==> language_accepted(*self),
            r matches Some(c) ==> c@ == (LanguageConfigView { lang: *self, names: highlight_names() }),
    {
        proof {
            reveal_strlit("");
            assert(""@ =~= Seq::<char>::empty());
        }
        let config = match self {
            Language::Json => json_configuration(json_highlights_query(), "", ""),
            Language::Markdown => md_configuration(markdown_injection_block_query(), markdown_injection_block_query(), ""),
            Language::Toml => toml_ng_configuration(toml_highlights_query(), "", ""),
            Language::Yaml => yaml_configuration(yaml_highlights_query(), "", ""),
            Language::Rust => rust_configuration(rust_highlights_query(), rust_injections_query(), ""),
            Language::Go => go_configuration(go_highlights_query(), "", ""),
            Language::C => c_configuration(c_highlights_query(), "", ""),
            Language::Cpp => cpp_configuration(cpp_highlights_query(), "", ""),
            Language::JavaScript => javascript_configuration(javascript_highlights_query(), javascript_injections_query(), javascript_locals_query()),
            Language::Zig => zig_configuration(zig_highlights_query(), zig_injections_query(), ""),
            Language::Java => java_configuration(java_highlights_query(), "", ""),
            Language::Python => python_configuration(python_highlights_query(), "", ""),
            Language::Ruby => ruby_configuration(ruby_highlights_query(), "", ruby_locals_query()),
            Language::Bash => bash_configuration(bash_highlights_query(), "", ""),
            Language::Html => html_configuration(html_highlights_query(), "", ""),
            Language::Css => css_configuration(css_highlights_query(), "", ""),
            Language::Swift => swift_configuration("", "", ""),
            Language::Scala => scala_configuration(scala_highlights_query(), "", scala_locals_query()),
            Language::CSharp => c_sharp_configuration("", "", ""),
            Language::GraphQL => graphql_configuration("", "", ""),
            Language::Proto => proto_configuration("", "", ""),
            Language::Make => make_configuration(make_highlights_query(), "", ""),
            Language::CMake => cmake_configuration("", "", ""),
        };
        match config {
            Some(config) => {
                let mut c = LanguageConfig { lang: *self, names: Vec::new(), config };
                let names = highlight_names_list();
                proof {
                    assert(names_view(names@) =~= highlight_names());
                }
                configure(&mut c, names);
                Some(c)
            },
            None => None,
        }
    }
}

} // verus!
