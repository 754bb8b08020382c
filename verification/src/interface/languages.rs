use std::collections::HashMap;
use vstd::prelude::*;
use crate::text::str_eq;

verus! {

broadcast use vstd::std_specs::hash::group_hash_axioms;

/// The languages a session can be coding in.
#[derive(Debug, Clone, Copy, Hash, PartialEq, Eq, Structural)]
pub enum Language {
    C,
    Cpp,
    Css,
    Go,
    Html,
    Java,
    Javascript,
    Lua,
    Python,
    R,
    Rust,
    Typescript,
    OCaml,
    Unknown,
}

/// The lower-case name of a language.
pub open spec fn spec_name(l: Language) -> Seq<char> {
    match l {
        Language::C => "c"@,
        Language::Cpp => "cpp"@,
        Language::Css => "css"@,
        Language::Go => "go"@,
        Language::Html => "html"@,
        Language::Java => "java"@,
        Language::Javascript => "javascript"@,
        Language::Lua => "lua"@,
        Language::Python => "python"@,
        Language::R => "r"@,
        Language::Rust => "rust"@,
        Language::Typescript => "typescript"@,
        Language::OCaml => "ocaml"@,
        Language::Unknown => "unknown"@,
    }
}

/// The position of a language in the declaration of `Language`.
pub open spec fn spec_code(l: Language) -> u8 {
    match l {
        Language::C => 0u8,
        Language::Cpp => 1u8,
        Language::Css => 2u8,
        Language::Go => 3u8,
        Language::Html => 4u8,
        Language::Java => 5u8,
        Language::Javascript => 6u8,
        Language::Lua => 7u8,
        Language::Python => 8u8,
        Language::R => 9u8,
        Language::Rust => 10u8,
        Language::Typescript => 11u8,
        Language::OCaml => 12u8,
        Language::Unknown => 13u8,
    }
}

/// The language at position `k` of the declaration of `Language`.
pub open spec fn spec_from_code(k: u8) -> Language {
    if k == 0 {
        Language::C
    } else if k == 1 {
        Language::Cpp
    } else if k == 2 {
        Language::Css
    } else if k == 3 {
        Language::Go
    } else if k == 4 {
        Language::Html
    } else if k == 5 {
        Language::Java
    } else if k == 6 {
        Language::Javascript
    } else if k == 7 {
        Language::Lua
    } else if k == 8 {
        Language::Python
    } else if k == 9 {
        Language::R
    } else if k == 10 {
        Language::Rust
    } else if k == 11 {
        Language::Typescript
    } else if k == 12 {
        Language::OCaml
    } else {
        Language::Unknown
    }
}

/// The language that a lower-case name stands for; `Unknown` for any other
/// text.
pub open spec fn spec_language_named(s: Seq<char>) -> Language {
    if s == "c"@ {
        Language::C
    } else if s == "cpp"@ {
        Language::Cpp
    } else if s == "css"@ {
        Language::Css
    } else if s == "go"@ {
        Language::Go
    } else if s == "html"@ {
        Language::Html
    } else if s == "java"@ {
        Language::Java
    } else if s == "javascript"@ {
        Language::Javascript
    } else if s == "lua"@ {
        Language::Lua
    } else if s == "python"@ {
        Language::Python
    } else if s == "r"@ {
        Language::R
    } else if s == "rust"@ {
        Language::Rust
    } else if s == "typescript"@ {
        Language::Typescript
    } else if s == "ocaml"@ {
        Language::OCaml
    } else {
        Language::Unknown
    }
}

/// The language of a file extension; `Unknown` for extensions not listed.
pub open spec fn spec_ext_language(e: Seq<char>) -> Language {
    if e == "c"@ || e == "h"@ {
        Language::C
    } else if e == "cpp"@ || e == "hpp"@ || e == "cc"@ || e == "hh"@ || e == "cxx"@ || e == "hxx"@ {
        Language::Cpp
    } else if e == "css"@ {
        Language::Css
    } else if e == "go"@ {
        Language::Go
    } else if e == "html"@ || e == "htm"@ {
        Language::Html
    } else if e == "java"@ {
        Language::Java
    } else if e == "js"@ || e == "jsx"@ {
        Language::Javascript
    } else if e == "lua"@ {
        Language::Lua
    } else if e == "py"@ {
        Language::Python
    } else if e == "r"@ {
        Language::R
    } else if e == "rs"@ {
        Language::Rust
    } else if e == "ts"@ || e == "tsx"@ {
        Language::Typescript
    } else if e == "ml"@ || e == "mli"@ {
        Language::OCaml
    } else {
        Language::Unknown
    }
}

/// The logo asset name of a language.
pub open spec fn spec_logo(l: Language) -> Seq<char> {
    if spec_name(l) == "unknown"@ {
        "wild-card"@
    } else {
        spec_name(l) + "-logo"@
    }
}

impl Default for Language {
    fn default() -> (res: Self)
        ensures
            res == Language::Unknown,
    {
        Language::Unknown
    }
}

impl Language {
    /// The position of this language in the declaration of `Language`.
    pub fn code(&self) -> (res: u8)
        ensures
            res == spec_code(*self),
    {
        match self {
            Language::C => 0,
            Language::Cpp => 1,
            Language::Css => 2,
            Language::Go => 3,
            Language::Html => 4,
            Language::Java => 5,
            Language::Javascript => 6,
            Language::Lua => 7,
            Language::Python => 8,
            Language::R => 9,
            Language::Rust => 10,
            Language::Typescript => 11,
            Language::OCaml => 12,
            Language::Unknown => 13,
        }
    }

    /// The language at position `k` of the declaration of `Language`.
    pub fn from_code(k: u8) -> (res: Language)
        ensures
            res == spec_from_code(k),
    {
        if k == 0 {
            Language::C
        } else if k == 1 {
            Language::Cpp
        } else if k == 2 {
            Language::Css
        } else if k == 3 {
            Language::Go
        } else if k == 4 {
            Language::Html
        } else if k == 5 {
            Language::Java
        } else if k == 6 {
            Language::Javascript
        } else if k == 7 {
            Language::Lua
        } else if k == 8 {
            Language::Python
        } else if k == 9 {
            Language::R
        } else if k == 10 {
            Language::Rust
        } else if k == 11 {
            Language::Typescript
        } else if k == 12 {
            Language::OCaml
        } else {
            Language::Unknown
        }
    }

    /// The lower-case name of this language.
    #[allow(clippy::inherent_to_string)]
    pub fn to_string(&self) -> (res: String)
        ensures
            res@ == spec_name(*self),
    {
        match self {
            Language::C => String::from_str("c"),
            Language::Cpp => String::from_str("cpp"),
            Language::Css => String::from_str("css"),
            Language::Go => String::from_str("go"),
            Language::Html => String::from_str("html"),
            Language::Java => String::from_str("java"),
            Language::Javascript => String::from_str("javascript"),
            Language::Lua => String::from_str("lua"),
            Language::Python => String::from_str("python"),
            Language::R => String::from_str("r"),
            Language::Rust => String::from_str("rust"),
            Language::Typescript => String::from_str("typescript"),
            Language::OCaml => String::from_str("ocaml"),
            Language::Unknown => String::from_str("unknown"),
        }
    }

    /// The name of this language's logo asset: `wild-card` for an unknown
    /// language, otherwise the language's name followed by `-logo`.
    pub fn get_logo(&self) -> (res: String)
        ensures
            res@ == spec_logo(*self),
    {
        let lang = self.to_string();
        if str_eq(lang.as_str(), "unknown") {
            String::from_str("wild-card")
        } else {
            lang.concat("-logo")
        }
    }

    /// The language a lower-case name stands for, or `Unknown`.
    pub fn get_language_name(lang: &str) -> (res: Self)
        ensures
            res == spec_language_named(lang@),
    {
        if str_eq(lang, "c") {
            Self::C
        } else if str_eq(lang, "cpp") {
            Self::Cpp
        } else if str_eq(lang, "css") {
            Self::Css
        } else if str_eq(lang, "go") {
            Self::Go
        } else if str_eq(lang, "html") {
            Self::Html
        } else if str_eq(lang, "java") {
            Self::Java
        } else if str_eq(lang, "javascript") {
            Self::Javascript
        } else if str_eq(lang, "lua") {
            Self::Lua
        } else if str_eq(lang, "python") {
            Self::Python
        } else if str_eq(lang, "r") {
            Self::R
        } else if str_eq(lang, "rust") {
            Self::Rust
        } else if str_eq(lang, "typescript") {
            Self::Typescript
        } else if str_eq(lang, "ocaml") {
            Self::OCaml
        } else {
            Self::Unknown
        }
    }

    /// The name of the language of a file extension; `unknown` for
    /// extensions not listed.
    pub fn get_language(ext: &str) -> (res: String)
        ensures
            res@ == spec_name(spec_ext_language(ext@)),
    {
        if str_eq(ext, "c") || str_eq(ext, "h") {
            Self::C.to_string()
        } else if str_eq(ext, "cpp") || str_eq(ext, "hpp") || str_eq(ext, "cc") || str_eq(ext, "hh") || str_eq(ext, "cxx") || str_eq(ext, "hxx") {
            Self::Cpp.to_string()
        } else if str_eq(ext, "css") {
            Self::Css.to_string()
        } else if str_eq(ext, "go") {
            Self::Go.to_string()
        } else if str_eq(ext, "html") || str_eq(ext, "htm") {
            Self::Html.to_string()
        } else if str_eq(ext, "java") {
            Self::Java.to_string()
        } else if str_eq(ext, "js") || str_eq(ext, "jsx") {
            Self::Javascript.to_string()
        } else if str_eq(ext, "lua") {
            Self::Lua.to_string()
        } else if str_eq(ext, "py") {
            Self::Python.to_string()
        } else if str_eq(ext, "r") {
            Self::R.to_string()
        } else if str_eq(ext, "rs") {
            Self::Rust.to_string()
        } else if str_eq(ext, "ts") || str_eq(ext, "tsx") {
            Self::Typescript.to_string()
        } else if str_eq(ext, "ml") || str_eq(ext, "mli") {
            Self::OCaml.to_string()
        } else {
            String::from_str("unknown")
        }
    }
}


/// Different languages have different names.
pub proof fn lemma_names_distinct(a: Language, b: Language)
    ensures
        spec_name(a) == spec_name(b) ==> a == b,
{
    reveal_strlit("c");
    reveal_strlit("cpp");
    reveal_strlit("css");
    reveal_strlit("go");
    reveal_strlit("html");
    reveal_strlit("java");
    reveal_strlit("javascript");
    reveal_strlit("lua");
    reveal_strlit("python");
    reveal_strlit("r");
    reveal_strlit("rust");
    reveal_strlit("typescript");
    reveal_strlit("ocaml");
    reveal_strlit("unknown");
    if spec_name(a) == spec_name(b) {
        assert(spec_name(a).len() == spec_name(b).len());
        assert(spec_name(a)[0] == spec_name(b)[0]);
        assert(spec_name(a)[1] == spec_name(b)[1]);
    }
}

/// Every language is found again from its own name: naming a language and
/// reading the name back gives the same language.
pub proof fn lemma_name_roundtrip(l: Language)
    ensures
        spec_language_named(spec_name(l)) == l,
{
    lemma_names_distinct(l, Language::C);
    lemma_names_distinct(l, Language::Cpp);
    lemma_names_distinct(l, Language::Css);
    lemma_names_distinct(l, Language::Go);
    lemma_names_distinct(l, Language::Html);
    lemma_names_distinct(l, Language::Java);
    lemma_names_distinct(l, Language::Javascript);
    lemma_names_distinct(l, Language::Lua);
    lemma_names_distinct(l, Language::Python);
    lemma_names_distinct(l, Language::R);
    lemma_names_distinct(l, Language::Rust);
    lemma_names_distinct(l, Language::Typescript);
    lemma_names_distinct(l, Language::OCaml);
}

/// The length, first and last letter of each extension and language name.
proof fn lemma_extension_literals()
    ensures
        "c"@.len() == 1 && "c"@[0] == 'c' && "c"@[0] == 'c',
        "h"@.len() == 1 && "h"@[0] == 'h' && "h"@[0] == 'h',
        "cpp"@.len() == 3 && "cpp"@[0] == 'c' && "cpp"@[2] == 'p',
        "hpp"@.len() == 3 && "hpp"@[0] == 'h' && "hpp"@[2] == 'p',
        "cc"@.len() == 2 && "cc"@[0] == 'c' && "cc"@[1] == 'c',
        "hh"@.len() == 2 && "hh"@[0] == 'h' && "hh"@[1] == 'h',
        "cxx"@.len() == 3 && "cxx"@[0] == 'c' && "cxx"@[2] == 'x',
        "hxx"@.len() == 3 && "hxx"@[0] == 'h' && "hxx"@[2] == 'x',
        "css"@.len() == 3 && "css"@[0] == 'c' && "css"@[2] == 's',
        "go"@.len() == 2 && "go"@[0] == 'g' && "go"@[1] == 'o',
        "html"@.len() == 4 && "html"@[0] == 'h' && "html"@[3] == 'l',
        "htm"@.len() == 3 && "htm"@[0] == 'h' && "htm"@[2] == 'm',
        "java"@.len() == 4 && "java"@[0] == 'j' && "java"@[3] == 'a',
        "js"@.len() == 2 && "js"@[0] == 'j' && "js"@[1] == 's',
        "jsx"@.len() == 3 && "jsx"@[0] == 'j' && "jsx"@[2] == 'x',
        "lua"@.len() == 3 && "lua"@[0] == 'l' && "lua"@[2] == 'a',
        "py"@.len() == 2 && "py"@[0] == 'p' && "py"@[1] == 'y',
        "r"@.len() == 1 && "r"@[0] == 'r' && "r"@[0] == 'r',
        "rs"@.len() == 2 && "rs"@[0] == 'r' && "rs"@[1] == 's',
        "ts"@.len() == 2 && "ts"@[0] == 't' && "ts"@[1] == 's',
        "tsx"@.len() == 3 && "tsx"@[0] == 't' && "tsx"@[2] == 'x',
        "ml"@.len() == 2 && "ml"@[0] == 'm' && "ml"@[1] == 'l',
        "mli"@.len() == 3 && "mli"@[0] == 'm' && "mli"@[2] == 'i',
        "javascript"@.len() == 10 && "javascript"@[0] == 'j' && "javascript"@[9] == 't',
        "python"@.len() == 6 && "python"@[0] == 'p' && "python"@[5] == 'n',
        "rust"@.len() == 4 && "rust"@[0] == 'r' && "rust"@[3] == 't',
        "typescript"@.len() == 10 && "typescript"@[0] == 't' && "typescript"@[9] == 't',
        "ocaml"@.len() == 5 && "ocaml"@[0] == 'o' && "ocaml"@[4] == 'l',
        "unknown"@.len() == 7 && "unknown"@[0] == 'u' && "unknown"@[6] == 'n',
{
    reveal_strlit("c");
    reveal_strlit("h");
    reveal_strlit("cpp");
    reveal_strlit("hpp");
    reveal_strlit("cc");
    reveal_strlit("hh");
    reveal_strlit("cxx");
    reveal_strlit("hxx");
    reveal_strlit("css");
    reveal_strlit("go");
    reveal_strlit("html");
    reveal_strlit("htm");
    reveal_strlit("java");
    reveal_strlit("js");
    reveal_strlit("jsx");
    reveal_strlit("lua");
    reveal_strlit("py");
    reveal_strlit("r");
    reveal_strlit("rs");
    reveal_strlit("ts");
    reveal_strlit("tsx");
    reveal_strlit("ml");
    reveal_strlit("mli");
    reveal_strlit("javascript");
    reveal_strlit("python");
    reveal_strlit("rust");
    reveal_strlit("typescript");
    reveal_strlit("ocaml");
    reveal_strlit("unknown");
}

/// A language whose name is itself a file extension (C, C++, CSS, Go,
/// HTML, Java, Lua and R) is the language of that extension; the names of
/// the other languages are no extension of any language.
pub proof fn lemma_name_as_extension(l: Language)
    ensures
        (l == Language::C || l == Language::Cpp || l == Language::Css || l == Language::Go
            || l == Language::Html || l == Language::Java || l == Language::Lua || l == Language::R)
            ==> spec_ext_language(spec_name(l)) == l,
        (l == Language::Javascript || l == Language::Python || l == Language::Rust
            || l == Language::Typescript || l == Language::OCaml || l == Language::Unknown)
            ==> spec_ext_language(spec_name(l)) == Language::Unknown,
{
    lemma_extension_literals();
}

/// The file extensions that differ from their language's name, each with
/// its language.
pub proof fn lemma_short_extensions()
    ensures
        spec_ext_language("h"@) == Language::C,
        spec_ext_language("hpp"@) == Language::Cpp,
        spec_ext_language("cc"@) == Language::Cpp,
        spec_ext_language("hh"@) == Language::Cpp,
        spec_ext_language("cxx"@) == Language::Cpp,
        spec_ext_language("hxx"@) == Language::Cpp,
        spec_ext_language("htm"@) == Language::Html,
        spec_ext_language("js"@) == Language::Javascript,
        spec_ext_language("jsx"@) == Language::Javascript,
        spec_ext_language("py"@) == Language::Python,
        spec_ext_language("rs"@) == Language::Rust,
        spec_ext_language("ts"@) == Language::Typescript,
        spec_ext_language("tsx"@) == Language::Typescript,
        spec_ext_language("ml"@) == Language::OCaml,
        spec_ext_language("mli"@) == Language::OCaml,
{
    lemma_extension_literals();
}

/// Different languages have different logos, and the logo of a known
/// language is named after the language.
pub proof fn lemma_logos_distinct(a: Language, b: Language)
    ensures
        spec_logo(a) == spec_logo(b) ==> a == b,
        a != Language::Unknown ==> spec_logo(a).subrange(0, spec_name(a).len() as int)
            == spec_name(a),
{
    lemma_names_distinct(a, Language::Unknown);
    lemma_names_distinct(b, Language::Unknown);
    reveal_strlit("-logo");
    reveal_strlit("wild-card");
    lemma_extension_literals();
    if a != Language::Unknown {
        assert(spec_logo(a).subrange(0, spec_name(a).len() as int) =~= spec_name(a));
    }
    if spec_logo(a) == spec_logo(b) {
        if a != Language::Unknown && b != Language::Unknown {
            assert(spec_logo(a).len() == spec_logo(b).len());
            assert(spec_name(a) =~= spec_logo(a).subrange(0, spec_logo(a).len() - 5));
            assert(spec_name(b) =~= spec_logo(b).subrange(0, spec_logo(b).len() - 5));
            lemma_names_distinct(a, b);
        } else if a != Language::Unknown || b != Language::Unknown {
            assert(spec_logo(a)[spec_logo(a).len() - 1] == spec_logo(b)[spec_logo(b).len() - 1]);
        }
    }
}

/// Every language is found again from its position in the declaration.
pub proof fn lemma_code_roundtrip(l: Language)
    ensures
        spec_from_code(spec_code(l)) == l,
        spec_code(l) < 14,
        spec_code(l) == 13 <==> l == Language::Unknown,
{
}

/// The languages seen in a session, with how often each was seen.
#[derive(Debug)]
pub struct LanguageExt {
    pub name: Language,
    counter: HashMap<u8, usize>,
}

impl LanguageExt {
    /// The current language.
    pub closed spec fn current(&self) -> Language {
        self.name
    }

    /// The tally of languages seen: each language that was pushed, with its
    /// count.
    pub closed spec fn tally(&self) -> Map<Language, nat> {
        Map::new(
            |l: Language| self.counter@.contains_key(spec_code(l)),
            |l: Language| self.counter@[spec_code(l)] as nat,
        )
    }

    /// The count a language reaches after one more push: the first push of a
    /// language counts it twice, each further push once.
    pub open spec fn bumped(t: Map<Language, nat>, l: Language) -> nat {
        if t.contains_key(l) {
            t[l] + 1
        } else {
            2
        }
    }

    /// The most frequent known language of a tally, the later one in the
    /// declaration of `Language` among equally frequent ones; `Unknown`
    /// when no known language was seen.
    pub open spec fn spec_max(t: Map<Language, nat>, res: Language) -> bool {
        if exists|l: Language| t.contains_key(l) && l != Language::Unknown {
            &&& t.contains_key(res)
            &&& res != Language::Unknown
            &&& forall|l: Language|
                #![trigger t[l]]
                t.contains_key(l) && l != Language::Unknown ==> t[l] <= t[res] && (t[l] == t[res]
                    ==> spec_code(l) <= spec_code(res))
        } else {
            res == Language::Unknown
        }
    }
}

impl Default for LanguageExt {
    fn default() -> (res: Self)
        ensures
            res.current() == Language::Unknown,
            res.tally() == Map::<Language, nat>::empty(),
    {
        let res = LanguageExt { name: Language::Unknown, counter: HashMap::new() };
        assert(res.tally() =~= Map::<Language, nat>::empty());
        res
    }
}

impl Clone for LanguageExt {
    fn clone(&self) -> (res: Self)
        ensures
            res.current() == self.current(),
            res.tally() == self.tally(),
    {
        let res = LanguageExt { name: self.name, counter: self.counter.clone() };
        assert(res.tally() =~= self.tally());
        res
    }
}

impl LanguageExt {
    /// Records one more sighting of the language named `lang` (see
    /// `Language::get_language_name`) and makes it the current language.
    pub fn push(&mut self, lang: &str)
        requires
            Self::spec_room_for(old(self).tally(), spec_language_named(lang@)),
        ensures
            final(self).current() == spec_language_named(lang@),
            final(self).tally() == old(self).tally().insert(
                spec_language_named(lang@),
                Self::bumped(old(self).tally(), spec_language_named(lang@)),
            ),
    {
        let language = Language::get_language_name(lang);
        self.name = language;
        let k = language.code();
        proof {
            lemma_code_roundtrip(language);
        }
        let n: usize = match self.counter.get(&k) {
            Some(c) => *c + 1,
            None => 2,
        };
        let ghost before = self.tally();
        self.counter.insert(k, n);
        proof {
            assert forall|l: Language| #[trigger] self.counter@.contains_key(spec_code(l)) && l != language implies spec_code(l) != k by {
                lemma_code_roundtrip(l);
            }
            assert forall|l: Language| l != language implies spec_code(l) != k by {
                lemma_code_roundtrip(l);
            }
            assert(self.tally() =~= before.insert(language, Self::bumped(before, language)));
        }
    }

    /// Records one more sighting of the language of the file extension
    /// `ext` and makes it the current language.
    pub fn push_ext(&mut self, ext: &str)
        requires
            Self::spec_room_for(old(self).tally(), spec_ext_language(ext@)),
        ensures
            final(self).current() == spec_ext_language(ext@),
            final(self).tally() == old(self).tally().insert(
                spec_ext_language(ext@),
                Self::bumped(old(self).tally(), spec_ext_language(ext@)),
            ),
    {
        let language = Language::get_language(ext);
        proof {
            lemma_name_roundtrip(spec_ext_language(ext@));
        }
        self.push(language.as_str())
    }

    /// The most frequent known language seen (see `spec_max`).
    pub fn get_max(&self) -> (res: Language)
        ensures
            Self::spec_max(self.tally(), res),
    {
        let mut best: Option<(u8, usize)> = None;
        let mut k: u8 = 0;
        while k < 13
            invariant
                k <= 13,
                match best {
                    None => forall|j: u8| j < k ==> !self.counter@.contains_key(j),
                    Some((b, c)) => {
                        &&& b < k
                        &&& self.counter@.contains_key(b)
                        &&& self.counter@[b] == c
                        &&& forall|j: u8|
                            #![trigger self.counter@[j]]
                            j < k && self.counter@.contains_key(j) ==> self.counter@[j] <= c && (
                            self.counter@[j] == c ==> j <= b)
                    },
                },
            decreases 13 - k,
        {
            match self.counter.get(&k) {
                Some(v) => {
                    let take = match best {
                        None => true,
                        Some((_, c)) => *v >= c,
                    };
                    if take {
                        best = Some((k, *v));
                    }
                },
                None => {},
            }
            k += 1;
        }
        let ghost t = self.tally();
        match best {
            None => {
                proof {
                    assert forall|l: Language| t.contains_key(l) implies l == Language::Unknown by {
                        lemma_code_roundtrip(l);
                    }
                }
                Language::Unknown
            },
            Some((b, c)) => {
                let res = Language::from_code(b);
                proof {
                    assert(spec_code(res) == b);
                    assert(t.contains_key(res));
                    assert forall|l: Language|
                        #![trigger t[l]]
                        t.contains_key(l) && l != Language::Unknown implies t[l] <= t[res] && (t[l]
                        == t[res] ==> spec_code(l) <= spec_code(res)) by {
                        lemma_code_roundtrip(l);
                        assert(self.counter@.contains_key(spec_code(l)));
                    }
                }
                res
            },
        }
    }

    /// The current language.
    pub fn current_language(&self) -> (res: Language)
        ensures
            res == self.current(),
    {
        self.name
    }

    /// Whether the count of `l` in the tally can take one more push.
    pub open spec fn spec_room_for(t: Map<Language, nat>, l: Language) -> bool {
        t.contains_key(l) ==> t[l] < usize::MAX
    }

    /// Whether language `l` can be counted once more.
    pub fn has_room_for(&self, l: Language) -> (res: bool)
        ensures
            res == Self::spec_room_for(self.tally(), l),
    {
        let k = l.code();
        match self.counter.get(&k) {
            Some(v) => *v < usize::MAX,
            None => true,
        }
    }

    /// Makes the most frequent known language seen the current language.
    pub fn get_max_ext(&mut self)
        ensures
            Self::spec_max(old(self).tally(), final(self).current()),
            final(self).tally() == old(self).tally(),
    {
        self.name = self.get_max();
    }
}


/// Pushing a file extension names the same language as pushing the name
/// of the extension's language: `push_ext(ext)` has the effect of
/// `push(&Language::get_language(ext))`.
pub proof fn lemma_push_ext_is_push(ext: Seq<char>)
    ensures
        spec_language_named(spec_name(spec_ext_language(ext))) == spec_ext_language(ext),
{
    lemma_name_roundtrip(spec_ext_language(ext));
}

/// A tally has one most frequent language: two languages that both are the
/// most frequent of the same tally (see `spec_max`) are the same.
pub proof fn lemma_max_unique(t: Map<Language, nat>, a: Language, b: Language)
    requires
        LanguageExt::spec_max(t, a),
        LanguageExt::spec_max(t, b),
    ensures
        a == b,
{
    if exists|l: Language| t.contains_key(l) && l != Language::Unknown {
        assert(t[a] <= t[b]);
        assert(t[b] <= t[a]);
        lemma_code_roundtrip(a);
        lemma_code_roundtrip(b);
    }
}

/// How often `l` occurs in `ls`.
pub open spec fn occurrences(ls: Seq<Language>, l: Language) -> nat
    decreases ls.len(),
{
    if ls.len() == 0 {
        0
    } else {
        occurrences(ls.drop_last(), l) + if ls.last() == l {
            1nat
        } else {
            0nat
        }
    }
}

/// The tally of a `LanguageExt` made by `default` and then given pushes
/// naming the languages of `ls`, in order (see `push`).
pub open spec fn tally_of(ls: Seq<Language>) -> Map<Language, nat>
    decreases ls.len(),
{
    if ls.len() == 0 {
        Map::empty()
    } else {
        let t = tally_of(ls.drop_last());
        t.insert(ls.last(), LanguageExt::bumped(t, ls.last()))
    }
}

/// One more push extends the tally as `push` does: a `LanguageExt` whose
/// tally is `tally_of(ls)` has tally `tally_of(ls.push(l))` after pushing
/// `l`.
pub proof fn lemma_tally_of_push(ls: Seq<Language>, l: Language)
    ensures
        tally_of(ls.push(l)) == tally_of(ls).insert(l, LanguageExt::bumped(tally_of(ls), l)),
{
    assert(ls.push(l).drop_last() == ls);
}

/// The tally counts pushes: a language was pushed exactly when it is in
/// the tally, and then its count is one more than the number of pushes.
pub proof fn lemma_tally_counts(ls: Seq<Language>)
    ensures
        forall|l: Language|
            #![trigger tally_of(ls).contains_key(l)]
            tally_of(ls).contains_key(l) <==> occurrences(ls, l) > 0,
        forall|l: Language|
            #![trigger tally_of(ls)[l]]
            tally_of(ls).contains_key(l) ==> tally_of(ls)[l] == occurrences(ls, l) + 1,
    decreases ls.len(),
{
    if ls.len() > 0 {
        let p = ls.drop_last();
        lemma_tally_counts(p);
        assert forall|l: Language| #[trigger]
            tally_of(ls).contains_key(l) <==> occurrences(ls, l) > 0 by {
            assert(tally_of(p).contains_key(l) <==> occurrences(p, l) > 0);
        }
        assert forall|l: Language| tally_of(ls).contains_key(l) implies #[trigger] tally_of(ls)[l]
            == occurrences(ls, l) + 1 by {
            assert(tally_of(p).contains_key(l) <==> occurrences(p, l) > 0);
            if tally_of(p).contains_key(l) {
                assert(tally_of(p)[l] == occurrences(p, l) + 1);
            }
        }
    }
}

/// `get_max` in terms of pushes: after the pushes `ls`, the most frequent
/// language is `Unknown` exactly when no known language was pushed, and
/// otherwise it is a known language pushed at least as often as any other.
pub proof fn lemma_max_by_pushes(ls: Seq<Language>, res: Language)
    requires
        LanguageExt::spec_max(tally_of(ls), res),
    ensures
        res == Language::Unknown <==> forall|l: Language|
            l != Language::Unknown ==> #[trigger] occurrences(ls, l) == 0,
        res != Language::Unknown ==> occurrences(ls, res) > 0 && forall|l: Language|
            l != Language::Unknown ==> #[trigger] occurrences(ls, l) <= occurrences(ls, res),
{
    lemma_tally_counts(ls);
    let t = tally_of(ls);
    if exists|l: Language| t.contains_key(l) && l != Language::Unknown {
        let w = choose|l: Language| t.contains_key(l) && l != Language::Unknown;
        assert(occurrences(ls, w) > 0);
        assert forall|l: Language| l != Language::Unknown implies #[trigger] occurrences(ls, l)
            <= occurrences(ls, res) by {
            if t.contains_key(l) {
                assert(t[l] <= t[res]);
            }
        }
    } else {
        assert forall|l: Language| l != Language::Unknown implies #[trigger] occurrences(ls, l)
            == 0 by {
            if occurrences(ls, l) > 0 {
                assert(t.contains_key(l));
            }
        }
    }
}

} // verus!
