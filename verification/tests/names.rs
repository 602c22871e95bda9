use epiphany::location::Location;
use epiphany::names::{
    candidate_filename, filename_of, has_default_name, is_placeholder, suffixed_filename, LAST_PROBE,
};
use epiphany::slug::slugify;
use epiphany::text::{decimal_string, same_text};

#[test]
fn slug_is_lower_case_with_underscores() {
    assert_eq!(slugify("My First Note!"), "my_first_note");
    assert_eq!(slugify("New Title"), "new_title");
    assert_eq!(slugify("  hello   world  "), "hello_world");
    assert_eq!(slugify("a--b"), "a_b");
    assert_eq!(slugify("10 amazing secrets"), "10_amazing_secrets");
}

#[test]
fn slug_transliterates() {
    assert_eq!(slugify("Æúű--cool?"), "aeuu_cool");
}

#[test]
fn slug_of_nothing_sayable_is_empty() {
    assert_eq!(slugify("!!!"), "");
    assert_eq!(slugify(""), "");
}

#[test]
fn slug_is_the_same_each_time() {
    for title in ["My First Note!", "Ünïcödé títle", "a/b\\c:d", "x"] {
        assert_eq!(slugify(title), slugify(title));
    }
}

#[test]
fn slug_holds_only_safe_characters() {
    for title in ["My First Note!", "a/b\\c:d*e?f\"g<h>i|j", "Ünïcödé títle", "..", "影師嗎", "tab\there"] {
        let slug = slugify(title);
        assert!(slug.chars().all(|c| c.is_ascii_lowercase() || c.is_ascii_digit() || c == '_'));
    }
    assert_eq!(slugify("a/b\\c:d"), "a_b_c_d");
}

#[test]
fn decimal_strings() {
    assert_eq!(decimal_string(0), "0");
    assert_eq!(decimal_string(7), "7");
    assert_eq!(decimal_string(10), "10");
    assert_eq!(decimal_string(25), "25");
    assert_eq!(decimal_string(1905), "1905");
    assert_eq!(decimal_string(u64::MAX), "18446744073709551615");
    assert_eq!(decimal_string(9), "9");
    assert_eq!(decimal_string(100), "100");
}

#[test]
fn file_names() {
    assert_eq!(filename_of("abc123"), "abc123.djot");
    assert_eq!(filename_of(""), ".djot");
    assert_eq!(suffixed_filename("my_note", "abc123"), "my_note_abc123.djot");
    assert_eq!(candidate_filename("my_note", 0), "my_note.djot");
    assert_eq!(candidate_filename("my_note", 1), "my_note_1.djot");
    assert_eq!(candidate_filename("my_note", LAST_PROBE), "my_note_25.djot");
    assert_eq!(LAST_PROBE, 25);
}

#[test]
fn default_names_and_placeholder() {
    assert!(has_default_name("abc123", "abc123.djot"));
    assert!(!has_default_name("abc123", "abc123.txt"));
    assert!(!has_default_name("abc123", "custom_name.djot"));
    assert!(is_placeholder("Unnamed Note"));
    assert!(!is_placeholder("unnamed note"));
    assert!(!is_placeholder("Unnamed Note "));
    assert!(same_text("a", "a"));
    assert!(!same_text("a", "b"));
}

#[test]
fn places() {
    let root = Location::workspace("/ws");
    assert_eq!(root.base, "/ws");
    assert!(root.segments.is_empty());
    let joined = Location::new("/ws").join("a").join("b");
    assert_eq!(joined.base, "/ws");
    assert_eq!(joined.segments, vec!["a".to_string(), "b".to_string()]);
    assert_eq!(Location::notes_dir("/ws").segments, vec!["notes".to_string()]);
    assert_eq!(Location::assets_dir("/ws").segments, vec!["assets".to_string()]);
    assert_eq!(Location::index_file("/ws").segments, vec!["epiphany.json".to_string()]);
    let config = Location::config_file("/cfg");
    assert_eq!(config.base, "/cfg");
    assert_eq!(config.segments, vec!["epiphany.conf.json".to_string()]);
    let note = Location::note_file("/ws", "x.djot");
    assert_eq!(note.base, "/ws");
    assert_eq!(note.segments, vec!["notes".to_string(), "x.djot".to_string()]);
}
