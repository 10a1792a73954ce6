use cargomon::locator::{
    declaration_line_in, declared_value_in, executable_path, is_declaration_in, locate,
    package_name, separator_of, LocateError, Platform, BUILD_ROOT, DEBUG_PROFILE, WINDOWS_SUFFIX,
};
use cargomon::text::chars_of;

fn name_in(manifest: &str) -> Option<String> {
    package_name(manifest)
}

fn declares(line: &str) -> bool {
    let chars = chars_of(line);
    is_declaration_in(&chars, 0, chars.len())
}

#[test]
fn test_find_executable() {
    let manifest = "[package]\nname = \"test_project\"\n";
    assert_eq!(
        locate(Some(manifest), Platform::Windows),
        Ok(String::from(r"target\debug\test_project.exe"))
    );
    assert_eq!(
        locate(Some(manifest), Platform::Unix),
        Ok(String::from("target/debug/test_project"))
    );
}

#[test]
fn test_find_executable_no_cargo_toml() {
    assert_eq!(locate(None, Platform::Unix), Err(LocateError::NotFound));
    assert_eq!(locate(None, Platform::Windows), Err(LocateError::NotFound));
}

#[test]
fn test_find_executable_invalid_cargo_toml() {
    let manifest = "[package]\n# Missing name field\n";
    assert_eq!(locate(Some(manifest), Platform::Unix), Err(LocateError::Malformed));
    assert_eq!(locate(Some(manifest), Platform::Windows), Err(LocateError::Malformed));
}

#[test]
fn demo_manifest_on_unix_and_windows() {
    let manifest = "[package]\nname = \"demo\"\n";
    assert_eq!(locate(Some(manifest), Platform::Unix), Ok(String::from("target/debug/demo")));
    assert_eq!(
        locate(Some(manifest), Platform::Windows),
        Ok(String::from("target\\debug\\demo.exe"))
    );
}

#[test]
fn name_with_spaces_around_the_sign() {
    let path = locate(Some("name = \"foo\""), Platform::Unix).unwrap();
    assert!(path.ends_with("foo"));
    assert_eq!(path, "target/debug/foo");
    let path = locate(Some("name = \"foo\""), Platform::Windows).unwrap();
    assert!(path.ends_with("foo.exe"));
}

#[test]
fn name_without_spaces_around_the_sign() {
    assert_eq!(name_in("name=\"bar\""), Some(String::from("bar")));
    assert_eq!(locate(Some("name=\"bar\""), Platform::Unix), Ok(String::from("target/debug/bar")));
}

#[test]
fn package_section_without_name_is_malformed() {
    assert_eq!(
        locate(Some("[package]\nversion = \"0.1.0\"\n"), Platform::Unix),
        Err(LocateError::Malformed)
    );
    assert_eq!(locate(Some("[package]"), Platform::Unix), Err(LocateError::Malformed));
    assert_eq!(locate(Some(""), Platform::Unix), Err(LocateError::Malformed));
    assert_eq!(locate(Some("\n\n\n"), Platform::Unix), Err(LocateError::Malformed));
}

#[test]
fn empty_name_is_malformed() {
    assert_eq!(locate(Some("name = \"\""), Platform::Unix), Err(LocateError::Malformed));
    assert_eq!(locate(Some("name ="), Platform::Unix), Err(LocateError::Malformed));
    assert_eq!(locate(Some("name =   \n"), Platform::Unix), Err(LocateError::Malformed));
    assert_eq!(locate(Some("name = \"\"\"\"\n"), Platform::Unix), Err(LocateError::Malformed));
    assert_eq!(locate(Some("name==x"), Platform::Unix), Err(LocateError::Malformed));
}

#[test]
fn first_declaration_decides_even_when_it_is_empty() {
    assert_eq!(name_in("name = \"\"\nname = \"later\"\n"), None);
    assert_eq!(name_in("name = \"first\"\nname = \"second\"\n"), Some(String::from("first")));
}

#[test]
fn locating_twice_gives_the_same_outcome() {
    let manifests = [
        Some("[package]\nname = \"demo\"\n"),
        Some("[package]\n"),
        Some("name = \"\""),
        None,
    ];
    for manifest in manifests {
        for platform in [Platform::Unix, Platform::Windows] {
            assert_eq!(locate(manifest, platform), locate(manifest, platform));
        }
    }
}

#[test]
fn an_edited_manifest_is_read_anew() {
    assert_eq!(
        locate(Some("name = \"before\""), Platform::Unix),
        Ok(String::from("target/debug/before"))
    );
    assert_eq!(
        locate(Some("name = \"after\""), Platform::Unix),
        Ok(String::from("target/debug/after"))
    );
}

#[test]
fn declaration_may_be_indented_and_padded() {
    assert_eq!(name_in("  name = \"a\""), Some(String::from("a")));
    assert_eq!(name_in("\tname\t=\t\"a\"\t"), Some(String::from("a")));
    assert_eq!(name_in("name   =   a   "), Some(String::from("a")));
    assert_eq!(name_in("\u{a0}name\u{2003}=\u{3000}\"a\""), Some(String::from("a")));
}

#[test]
fn declaration_needs_the_sign_after_the_key() {
    assert!(declares("name = \"a\""));
    assert!(declares("name=\"a\""));
    assert!(declares("name ="));
    assert!(declares("  name  =x"));
    assert!(!declares("name"));
    assert!(!declares("name \"a\""));
    assert!(!declares("namespace = \"a\""));
    assert!(!declares("name.workspace = true"));
    assert!(!declares("names = [\"a\"]"));
    assert!(!declares("# name = \"a\""));
    assert!(!declares("Name = \"a\""));
    assert!(!declares("nam = \"a\""));
    assert!(!declares(""));
    assert!(!declares("   "));
    assert!(!declares("= name"));
}

#[test]
fn lines_that_only_resemble_a_declaration_are_passed_over() {
    let manifest = "[package]\nnamespace = \"x\"\nname.workspace = true\nname\nname = \"real\"\n";
    assert_eq!(name_in(manifest), Some(String::from("real")));
}

#[test]
fn value_ends_at_the_next_sign() {
    assert_eq!(name_in("name = \"a=b\""), Some(String::from("a")));
    assert_eq!(name_in("name = a = b"), Some(String::from("a")));
    assert_eq!(name_in("name = \"a\" # x=y"), Some(String::from("a\" # x")));
}

#[test]
fn whitespace_is_trimmed_before_quotes() {
    assert_eq!(name_in("name = \" a \""), Some(String::from(" a ")));
    assert_eq!(name_in("name = \"\"a\"\""), Some(String::from("a")));
    assert_eq!(name_in("name = \"a"), Some(String::from("a")));
    assert_eq!(name_in("name = a\""), Some(String::from("a")));
    assert_eq!(name_in("name = 'a'"), Some(String::from("'a'")));
    assert_eq!(name_in("name = \" \""), Some(String::from(" ")));
}

#[test]
fn carriage_returns_and_missing_final_line_feed() {
    assert_eq!(
        name_in("[package]\r\nname = \"demo\"\r\nversion = \"1\"\r\n"),
        Some(String::from("demo"))
    );
    assert_eq!(name_in("[package]\nname = \"demo\""), Some(String::from("demo")));
    assert_eq!(name_in("\n\nname = \"demo\""), Some(String::from("demo")));
}

#[test]
fn name_under_another_table_is_still_taken() {
    let manifest = "[dependencies.foo]\nname = \"not-the-package\"\n[package]\nname = \"demo\"\n";
    assert_eq!(name_in(manifest), Some(String::from("not-the-package")));
}

#[test]
fn names_beyond_ascii() {
    assert_eq!(name_in("name = \"démo-名前\""), Some(String::from("démo-名前")));
    assert_eq!(
        locate(Some("# ünïcödé\nname = \"démo\"\n"), Platform::Windows),
        Ok(String::from("target\\debug\\démo.exe"))
    );
}

#[test]
fn declaration_line_bounds() {
    let chars = chars_of("[package]\n  name = \"demo\"  \nversion = \"1\"\n");
    assert_eq!(declaration_line_in(&chars), Some((10, 27)));
    assert_eq!(declared_value_in(&chars, 10, 27), (20, 24));
    let none = chars_of("[package]\nversion = \"1\"\n");
    assert_eq!(declaration_line_in(&none), None);
    let empty = chars_of("");
    assert_eq!(declaration_line_in(&empty), None);
}

#[test]
fn path_parts() {
    assert_eq!(BUILD_ROOT, "target");
    assert_eq!(DEBUG_PROFILE, "debug");
    assert_eq!(WINDOWS_SUFFIX, ".exe");
    assert_eq!(separator_of(Platform::Unix), "/");
    assert_eq!(separator_of(Platform::Windows), "\\");
}

#[test]
fn executable_path_joins_root_profile_and_name() {
    assert_eq!(executable_path("demo", Platform::Unix), "target/debug/demo");
    assert_eq!(executable_path("demo", Platform::Windows), "target\\debug\\demo.exe");
    assert_eq!(executable_path("a b", Platform::Unix), "target/debug/a b");
    assert_eq!(executable_path("/rooted", Platform::Unix), "target/debug//rooted");
}

/// The same reading, written with the standard library's own line
/// splitting and trimming.
fn read_with_std(manifest: &str) -> Option<String> {
    manifest
        .lines()
        .find(|line| match line.trim().strip_prefix("name") {
            Some(after_key) => after_key.trim_start().starts_with('='),
            None => false,
        })
        .and_then(|line| line.split('=').nth(1))
        .map(|value| value.trim().trim_matches('"'))
        .filter(|name| !name.is_empty())
        .map(String::from)
}

/// Every text made of up to `length` of the given pieces.
fn texts_of(pieces: &[&str], length: usize) -> Vec<String> {
    let mut texts = vec![String::new()];
    let mut longest = vec![String::new()];
    for _ in 0..length {
        let mut longer = Vec::new();
        for text in &longest {
            for piece in pieces {
                longer.push(format!("{}{}", text, piece));
            }
        }
        texts.extend(longer.iter().cloned());
        longest = longer;
    }
    texts
}

#[test]
fn reading_agrees_with_the_standard_library_on_short_lines() {
    let pieces = ["name", "=", "\"", " ", "x", "\t", "n", "\u{a0}"];
    for text in texts_of(&pieces, 6) {
        assert_eq!(package_name(&text), read_with_std(&text), "{:?}", text);
    }
}

#[test]
fn reading_agrees_with_the_standard_library_on_short_manifests() {
    let pieces = ["name", "=", "\"x\"", " ", "\n", "\r\n", "[p]", "\r"];
    for text in texts_of(&pieces, 6) {
        assert_eq!(package_name(&text), read_with_std(&text), "{:?}", text);
    }
}

#[test]
fn reading_agrees_with_the_standard_library_on_sample_manifests() {
    let samples = [
        "[package]\nname = \"cargomon\"\nversion = \"0.1.0\"\n\n[dependencies]\nnotify = \"4\"\n",
        "[package]\r\nname = \"cargomon\"\r\nversion = \"0.1.0\"\r\n",
        "[workspace]\nmembers = [\"a\", \"b\"]\n",
        "[[bin]]\nname = \"tool\"\npath = \"src/main.rs\"\n[package]\nname = \"pkg\"\n",
        "[package]\nname.workspace = true\nname = \"fallback\"",
        "name = \"a\"=\"b\"\n",
        "  name\t=\t\"tabbed\"\t# trailing\n",
        "name = \"未来\"\n",
        "\u{2028}name = \"x\"",
        "name = \"x\"\u{85}",
    ];
    for sample in samples {
        assert_eq!(package_name(sample), read_with_std(sample), "{:?}", sample);
    }
}
