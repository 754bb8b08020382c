use rise_code::interface::languages::{Language, LanguageExt};

const ALL: [Language; 14] = [
    Language::C,
    Language::Cpp,
    Language::Css,
    Language::Go,
    Language::Html,
    Language::Java,
    Language::Javascript,
    Language::Lua,
    Language::Python,
    Language::R,
    Language::Rust,
    Language::Typescript,
    Language::OCaml,
    Language::Unknown,
];

#[test]
fn names_read_back_to_the_language() {
    for l in ALL {
        assert_eq!(Language::get_language_name(&l.to_string()), l);
    }
    assert_eq!(Language::get_language_name("Rust"), Language::Unknown);
}

#[test]
fn names_and_logos() {
    assert_eq!(Language::Cpp.to_string(), "cpp");
    assert_eq!(Language::OCaml.to_string(), "ocaml");
    assert_eq!(Language::Unknown.to_string(), "unknown");
    assert_eq!(Language::Rust.get_logo(), "rust-logo");
    assert_eq!(Language::Unknown.get_logo(), "wild-card");
}

#[test]
fn extensions_name_languages() {
    assert_eq!(Language::get_language("rs"), "rust");
    assert_eq!(Language::get_language("hxx"), "cpp");
    assert_eq!(Language::get_language("h"), "c");
    assert_eq!(Language::get_language("tsx"), "typescript");
    assert_eq!(Language::get_language("mli"), "ocaml");
    assert_eq!(Language::get_language("md"), "unknown");
    assert_eq!(Language::default(), Language::Unknown);
}

#[test]
fn push_sets_current_language() {
    let mut l = LanguageExt::default();
    assert_eq!(l.name, Language::Unknown);
    l.push("go");
    assert_eq!(l.name, Language::Go);
    l.push_ext("py");
    assert_eq!(l.name, Language::Python);
}

#[test]
fn most_frequent_language_wins() {
    let mut l = LanguageExt::default();
    l.push_ext("rs");
    l.push_ext("go");
    l.push_ext("go");
    assert_eq!(l.get_max(), Language::Go);
    l.get_max_ext();
    assert_eq!(l.name, Language::Go);
}

#[test]
fn ties_go_to_the_later_language() {
    let mut l = LanguageExt::default();
    l.push_ext("rs");
    l.push_ext("c");
    assert_eq!(l.get_max(), Language::Rust);
}

#[test]
fn unknown_never_wins() {
    let mut l = LanguageExt::default();
    assert_eq!(l.get_max(), Language::Unknown);
    l.push("nothing");
    l.push("nothing");
    assert_eq!(l.get_max(), Language::Unknown);
    l.push("lua");
    assert_eq!(l.get_max(), Language::Lua);
}

#[test]
fn clone_keeps_counts() {
    let mut l = LanguageExt::default();
    l.push_ext("js");
    let c = l.clone();
    assert_eq!(c.name, Language::Javascript);
    assert_eq!(c.get_max(), Language::Javascript);
    assert!(c.has_room_for(Language::Javascript));
    assert!(c.has_room_for(Language::Lua));
}

#[test]
fn codes_follow_the_declaration() {
    for (i, l) in ALL.iter().enumerate() {
        assert_eq!(l.code() as usize, i);
        assert_eq!(Language::from_code(i as u8), *l);
    }
    assert_eq!(Language::from_code(200), Language::Unknown);
}
