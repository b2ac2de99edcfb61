//! The supported languages and how a language identifier resolves to one.
use vstd::prelude::*;
use crate::text::chars_of;

verus! {

/// A runtime the engine knows how to drive.
#[derive(Clone, Copy, Debug, PartialEq, Eq, Structural)]
pub enum Language {
    Python,
    JavaScript,
    Rust,
    Cpp,
    Java,
}

/// The lowercase form of `s`, as `str::to_lowercase` computes it.
pub uninterp spec fn lower_of(s: Seq<char>) -> Seq<char>;

/// Relies on `str::to_lowercase`: its result depends on the characters of `s` alone.
#[verifier::external_body]
pub(crate) fn lowercase(s: &str) -> (r: String)
    ensures
        r@ == lower_of(s@),
{
    s.to_lowercase()
}

/// The language that an already-lowercased identifier names, if any.
pub open spec fn language_of(s: Seq<char>) -> Option<Language> {
    if s == "python"@ || s == "python3"@ {
        Some(Language::Python)
    } else if s == "javascript"@ || s == "js"@ || s == "node"@ {
        Some(Language::JavaScript)
    } else if s == "rust"@ {
        Some(Language::Rust)
    } else if s == "c++"@ || s == "cpp"@ {
        Some(Language::Cpp)
    } else if s == "java"@ {
        Some(Language::Java)
    } else {
        None
    }
}

/// The name under which a language appears in diagnostics.
pub open spec fn display_name(l: Language) -> Seq<char> {
    match l {
        Language::Python => "Python"@,
        Language::JavaScript => "JavaScript"@,
        Language::Rust => "Rust"@,
        Language::Cpp => "C++"@,
        Language::Java => "Java"@,
    }
}

/// Whether the language is compiled to an artifact before it runs.
pub open spec fn compiled(l: Language) -> bool {
    l == Language::Rust || l == Language::Cpp || l == Language::Java
}

impl Language {
    /// The name under which this language appears in diagnostics.
    pub fn name(&self) -> (r: &'static str)
        ensures
            r@ == display_name(*self),
    {
        match self {
            Language::Python => "Python",
            Language::JavaScript => "JavaScript",
            Language::Rust => "Rust",
            Language::Cpp => "C++",
            Language::Java => "Java",
        }
    }

    /// Whether this language goes through a compile step.
    pub fn is_compiled(&self) -> (r: bool)
        ensures
            r == compiled(*self),
    {
        match self {
            Language::Rust | Language::Cpp | Language::Java => true,
            _ => false,
        }
    }
}

/// Whether `a` and `b` hold the same characters.
fn same_chars(a: &Vec<char>, b: &str) -> (r: bool)
    ensures
        r == (a@ == b@),
{
    let bv = chars_of(b);
    if a.len() != bv.len() {
        return false;
    }
    let mut i: usize = 0;
    while i < a.len()
        invariant
            i <= a.len(),
            a.len() == bv.len(),
            bv@ == b@,
            forall|j: int| 0 <= j < i ==> a@[j] == bv@[j],
        decreases a.len() - i,
    {
        if a[i] != bv[i] {
            return false;
        }
        i += 1;
    }
    assert(a@ =~= bv@);
    true
}

/// The language that an already-lowercased identifier names, if any.
pub fn resolve_lowered(lowered: &str) -> (r: Option<Language>)
    ensures
        r == language_of(lowered@),
{
    let v = chars_of(lowered);
    if same_chars(&v, "python") || same_chars(&v, "python3") {
        Some(Language::Python)
    } else if same_chars(&v, "javascript") || same_chars(&v, "js") || same_chars(&v, "node") {
        Some(Language::JavaScript)
    } else if same_chars(&v, "rust") {
        Some(Language::Rust)
    } else if same_chars(&v, "c++") || same_chars(&v, "cpp") {
        Some(Language::Cpp)
    } else if same_chars(&v, "java") {
        Some(Language::Java)
    } else {
        None
    }
}

/// The language that `language` names, ignoring case.
pub fn resolve_language(language: &str) -> (r: Option<Language>)
    ensures
        r == language_of(lower_of(language@)),
{
    let lowered = lowercase(language);
    resolve_lowered(lowered.as_str())
}

} // verus!
