use classroom_transcriber::settings::{
    server_url_or_default, student_id_from_name, AppSettings, StoredSettings,
};

#[test]
fn a_name_becomes_a_hyphenated_lowercase_identifier() {
    assert_eq!(student_id_from_name("Jane Doe"), "jane-doe");
    assert_eq!(student_id_from_name("jane"), "jane");
    assert_eq!(student_id_from_name("  Mary-Ann O'Brien  3rd "), "maryann-obrien-3rd");
    assert_eq!(student_id_from_name("\u{c9}milie Du Ch\u{e2}telet"), "\u{e9}milie-du-ch\u{e2}telet");
}

#[test]
fn only_spaces_separate_the_words_of_a_name() {
    // A tab is neither letter, number nor space: it is dropped, not a gap.
    assert_eq!(student_id_from_name("Jane\tDoe"), "janedoe");
    assert_eq!(student_id_from_name("A  B   C"), "a-b-c");
}

#[test]
fn a_name_without_letters_gives_an_empty_identifier() {
    assert_eq!(student_id_from_name(""), "");
    assert_eq!(student_id_from_name("   "), "");
    assert_eq!(student_id_from_name("!?-"), "");
}

#[test]
fn the_identifier_is_what_the_standard_library_pipeline_gives() {
    for name in ["Jane Doe", " X \u{130}stanbul 42 ", "a.b c,d", "\u{3a3}\u{391}\u{3a3} end", "\u{2003}wide\u{2003}space"] {
        let expected = name
            .to_lowercase()
            .chars()
            .filter(|c| c.is_alphanumeric() || *c == ' ')
            .collect::<String>()
            .split_whitespace()
            .collect::<Vec<&str>>()
            .join("-");
        assert_eq!(student_id_from_name(name), expected);
    }
}

#[test]
fn a_missing_address_is_the_local_default() {
    assert_eq!(server_url_or_default(None), "http://localhost:3000");
    assert_eq!(server_url_or_default(Some("https://c.example".to_string())), "https://c.example");
    assert_eq!(server_url_or_default(Some(String::new())), "");
}

#[test]
fn missing_settings_are_shown_with_their_defaults() {
    let shown = AppSettings::from_stored(
        StoredSettings {
            student_id: None,
            student_name: None,
            teacher_name: None,
            server_url: None,
            setup_complete: None,
        },
        false,
    );
    assert_eq!(shown.student_id, "");
    assert_eq!(shown.student_name, "");
    assert_eq!(shown.teacher_name, "");
    assert_eq!(shown.server_url, "http://localhost:3000");
    assert!(!shown.model_loaded);
    assert!(!shown.setup_complete);
}

#[test]
fn stored_settings_are_shown_as_they_are() {
    let stored = |flag: &str| StoredSettings {
        student_id: Some("jane-doe".to_string()),
        student_name: Some("Jane Doe".to_string()),
        teacher_name: Some("Mr. Smith".to_string()),
        server_url: Some("https://c.example".to_string()),
        setup_complete: Some(flag.to_string()),
    };
    let shown = AppSettings::from_stored(stored("true"), true);
    assert_eq!(shown.student_id, "jane-doe");
    assert_eq!(shown.student_name, "Jane Doe");
    assert_eq!(shown.teacher_name, "Mr. Smith");
    assert_eq!(shown.server_url, "https://c.example");
    assert!(shown.model_loaded);
    assert!(shown.setup_complete);
    assert!(!AppSettings::from_stored(stored("false"), true).setup_complete);
    assert!(!AppSettings::from_stored(stored("TRUE"), true).setup_complete);
    assert!(!AppSettings::from_stored(stored(""), true).setup_complete);
}
