use moonzoon::command::new::{postprocess_project_files, replace_in_file, Replacement};

const ZOON_PATH: &str = r#"zoon = { path = "../../../zoon" }"#;
const ZOON_GIT: &str = r#"zoon = { git = "https://github.com/MoonZoon/MoonZoon", branch = "main" }"#;
const MOON_PATH: &str = r#"moon = { path = "../../../moon" }"#;
const MOON_GIT: &str = r#"moon = { git = "https://github.com/MoonZoon/MoonZoon", branch = "main" }"#;

#[test]
fn local_deps_need_no_replacement() {
    assert_eq!(postprocess_project_files(true), Vec::<Replacement>::new());
}

#[test]
fn published_deps_rewrite_both_manifests() {
    let replacements = postprocess_project_files(false);
    assert_eq!(
        replacements,
        vec![
            Replacement { file: "frontend/Cargo.toml", from: ZOON_PATH, to: ZOON_GIT },
            Replacement { file: "backend/Cargo.toml", from: MOON_PATH, to: MOON_GIT },
        ]
    );
}

#[test]
fn manifest_is_pointed_at_the_published_toolkit() {
    let manifest = format!("[dependencies]\n{}\nserde = \"1\"\n", ZOON_PATH);
    let expected = format!("[dependencies]\n{}\nserde = \"1\"\n", ZOON_GIT);
    assert_eq!(replace_in_file(&manifest, ZOON_PATH, ZOON_GIT), expected);
}

#[test]
fn plan_applies_to_the_files_it_names() {
    let frontend = format!("[package]\nname = \"frontend\"\n\n[dependencies]\n{}\n", ZOON_PATH);
    let backend = format!("[package]\nname = \"backend\"\n\n[dependencies]\n{}\n", MOON_PATH);
    for replacement in postprocess_project_files(false) {
        let (content, expected) = if replacement.file == "frontend/Cargo.toml" {
            (&frontend, frontend.replace(ZOON_PATH, ZOON_GIT))
        } else {
            assert_eq!(replacement.file, "backend/Cargo.toml");
            (&backend, backend.replace(MOON_PATH, MOON_GIT))
        };
        let replaced = replace_in_file(content, replacement.from, replacement.to);
        assert_eq!(replaced, expected);
        assert_ne!(&replaced, content);
    }
}

#[test]
fn text_without_the_pattern_is_unchanged() {
    assert_eq!(replace_in_file("serde = \"1\"\n", ZOON_PATH, ZOON_GIT), "serde = \"1\"\n");
    assert_eq!(replace_in_file("", "a", "b"), "");
    assert_eq!(replace_in_file("ab", "abc", "x"), "ab");
}

#[test]
fn every_occurrence_is_replaced() {
    assert_eq!(replace_in_file("a-b-c", "-", "+"), "a+b+c");
    assert_eq!(replace_in_file("abcabc", "abc", "x"), "xx");
    assert_eq!(replace_in_file("abc", "abc", ""), "");
    assert_eq!(replace_in_file("xabcx", "abc", "abcabc"), "xabcabcx");
    assert_eq!(replace_in_file("one two", "two", "2"), "one 2");
    assert_eq!(replace_in_file("one two", "one", "1"), "1 two");
}

#[test]
fn occurrences_are_taken_from_the_left_without_overlap() {
    assert_eq!(replace_in_file("aaa", "aa", "b"), "ba");
    assert_eq!(replace_in_file("aaaa", "aa", "b"), "bb");
    assert_eq!(replace_in_file("ababa", "aba", "x"), "xba");
}

#[test]
fn replacement_is_not_searched_again() {
    assert_eq!(replace_in_file("ab", "a", "aa"), "aab");
    assert_eq!(replace_in_file("aa", "a", "ba"), "baba");
}

#[test]
fn empty_pattern_occurs_around_every_character() {
    assert_eq!(replace_in_file("abc", "", "-"), "-a-b-c-");
    assert_eq!(replace_in_file("", "", "-"), "-");
    assert_eq!(replace_in_file("é✓", "", "."), ".é.✓.");
    assert_eq!(replace_in_file("abc", "", ""), "abc");
}

#[test]
fn characters_beyond_ascii_are_whole() {
    assert_eq!(replace_in_file("grün, grüner", "ü", "ue"), "gruen, gruener");
    assert_eq!(replace_in_file("✓ ok ✓", "✓", "yes"), "yes ok yes");
    assert_eq!(replace_in_file("日本語のテキスト", "の", " no "), "日本語 no テキスト");
}

#[test]
fn replacement_agrees_with_the_standard_library() {
    let contents = ["", "a", "aaa", "aaaa", "abcabcabc", "ababab", "xyz", "grün ✓ grün", "a\nb\n"];
    let patterns = ["", "a", "aa", "ab", "abc", "bc", "z", "ü", "✓ ", "\n", "abcabcabcd"];
    let replacements = ["", "a", "aa", "-", "ab", "✓"];
    for content in contents {
        for from in patterns {
            for to in replacements {
                assert_eq!(
                    replace_in_file(content, from, to),
                    content.replace(from, to),
                    "content {:?}, from {:?}, to {:?}",
                    content,
                    from,
                    to
                );
            }
        }
    }
}
