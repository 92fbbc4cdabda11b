use jot_sync::backup::backup_file_name;
use jot_sync::backup::backup_info;
use jot_sync::backup::is_note_entry;
use jot_sync::backup::parse_note_file_name;
use jot_sync::backup::surplus;
use jot_sync::client::note_file_name;
use jot_sync::language::save_deepl_config;
use jot_sync::language::save_language_tool_config;
use jot_sync::language::LanguageConfig;

#[test]
fn archive_is_named_after_date_and_timestamp() {
    assert_eq!(
        backup_file_name("2024-01-01_12-30-00", 1704112200),
        "jot_backup_2024-01-01_12-30-00_1704112200.zip"
    );
    assert_eq!(backup_file_name("", 0), "jot_backup__0.zip");
}

#[test]
fn archive_information_lists_date_timestamp_and_count() {
    assert_eq!(
        backup_info("2024-01-01_12-30-00", 1704112200, 7),
        "Backup created: 2024-01-01_12-30-00\nTimestamp: 1704112200\nFiles: 7"
    );
    assert_eq!(backup_info("d", 5, 0), "Backup created: d\nTimestamp: 5\nFiles: 0");
}

#[test]
fn surplus_is_what_exceeds_the_number_to_keep() {
    assert_eq!(surplus(0, 0), 0);
    assert_eq!(surplus(5, 5), 0);
    assert_eq!(surplus(5, 10), 0);
    assert_eq!(surplus(10, 3), 7);
    assert_eq!(surplus(4, 0), 4);
    assert_eq!(surplus(usize::MAX, 1), usize::MAX - 1);
}

#[test]
fn notes_in_an_archive_end_in_md() {
    assert!(is_note_entry("note_0.md"));
    assert!(is_note_entry("dir/other.md"));
    assert!(is_note_entry(".md"));
    assert!(!is_note_entry("backup_info.txt"));
    assert!(!is_note_entry("note_0.MD"));
    assert!(!is_note_entry("md"));
    assert!(!is_note_entry(""));
}

#[test]
fn note_index_is_read_from_the_file_name() {
    assert_eq!(parse_note_file_name("note_0.md"), Some(0));
    assert_eq!(parse_note_file_name("note_6.md"), Some(6));
    assert_eq!(parse_note_file_name("note_12.md"), Some(12));
    assert_eq!(parse_note_file_name("note_007.md"), Some(7));
    assert_eq!(parse_note_file_name("note_+3.md"), Some(3));
}

#[test]
fn other_names_stand_for_no_note() {
    for name in [
        "",
        "note_.md",
        "note_+.md",
        "note_-1.md",
        "note_1.txt",
        "note_1",
        "Note_1.md",
        "xnote_1.md",
        "note_1a.md",
        "note_ 1.md",
        "note_1.md ",
        "backup_info.txt",
        "note.md",
        "note_++1.md",
        "note_\u{0661}.md",
    ] {
        assert_eq!(parse_note_file_name(name), None, "{:?}", name);
    }
}

#[test]
fn index_too_large_stands_for_no_note() {
    let largest = format!("note_{}.md", usize::MAX);
    assert_eq!(parse_note_file_name(&largest), Some(usize::MAX));
    let too_large = format!("note_{}0.md", usize::MAX);
    assert_eq!(parse_note_file_name(&too_large), None);
    assert_eq!(parse_note_file_name("note_99999999999999999999999999.md"), None);
}

#[test]
fn file_name_of_a_note_reads_back_as_its_index() {
    for index in [0, 1, 6, 9, 10, 99, 100, 4096, usize::MAX] {
        assert_eq!(parse_note_file_name(&note_file_name(index)), Some(index));
    }
}

#[test]
fn grammar_checker_settings_without_key_store_nothing() {
    let mut config = LanguageConfig::default();
    config.languagetool_api_key = Some("held".to_string());
    let saved = save_language_tool_config(
        &mut config,
        None,
        Some("alice".to_string()),
        Some("https://lt.example.com/v2/check".to_string()),
    );
    assert_eq!(saved, Ok(()));
    assert_eq!(config.languagetool_username.as_deref(), Some("alice"));
    assert_eq!(config.languagetool_endpoint, "https://lt.example.com/v2/check");
    assert_eq!(config.languagetool_api_key.as_deref(), Some("held"));
    assert_eq!(config.deepl_endpoint, "https://api-free.deepl.com/v2/translate");
}

#[test]
fn grammar_checker_settings_with_empty_parts_store_nothing() {
    let mut config = LanguageConfig::default();
    let saved =
        save_language_tool_config(&mut config, Some(String::new()), Some("alice".to_string()), None);
    assert_eq!(saved, Ok(()));
    let saved =
        save_language_tool_config(&mut config, Some("key".to_string()), Some(String::new()), None);
    assert_eq!(saved, Ok(()));
    assert_eq!(config.languagetool_username.as_deref(), Some(""));
    let saved = save_language_tool_config(&mut config, Some("key".to_string()), None, None);
    assert_eq!(saved, Ok(()));
    assert_eq!(config.languagetool_username.as_deref(), Some(""));
    assert_eq!(config.languagetool_endpoint, "https://api.languagetool.org/v2/check");
}

#[test]
fn grammar_checker_key_is_filed_under_the_account() {
    let mut config = LanguageConfig::default();
    let saved = save_language_tool_config(
        &mut config,
        Some("key".to_string()),
        Some("jot-test-lt".to_string()),
        Some("https://lt.example.com".to_string()),
    );
    assert_eq!(config.languagetool_username.as_deref(), Some("jot-test-lt"));
    assert!(config.languagetool_api_key.is_none());
    match saved {
        Ok(()) => assert_eq!(config.languagetool_endpoint, "https://lt.example.com"),
        Err(_) => assert_eq!(config.languagetool_endpoint, "https://api.languagetool.org/v2/check"),
    }
}

#[test]
fn translator_settings_without_key_store_nothing() {
    let mut config = LanguageConfig::default();
    let saved = save_deepl_config(
        &mut config,
        "jot.test.app",
        None,
        Some("https://api.deepl.com/v2/translate".to_string()),
    );
    assert_eq!(saved, Ok(()));
    assert_eq!(config.deepl_endpoint, "https://api.deepl.com/v2/translate");
    let saved = save_deepl_config(&mut config, "jot.test.app", Some(String::new()), None);
    assert_eq!(saved, Ok(()));
    assert_eq!(config.deepl_endpoint, "https://api.deepl.com/v2/translate");
    assert!(config.deepl_api_key.is_none());
    assert!(config.languagetool_username.is_none());
}

#[test]
fn translator_key_is_filed_under_the_installation() {
    let mut config = LanguageConfig::default();
    let saved = save_deepl_config(
        &mut config,
        "jot.test.app",
        Some("key".to_string()),
        Some("https://api.deepl.com".to_string()),
    );
    match saved {
        Ok(()) => assert_eq!(config.deepl_endpoint, "https://api.deepl.com"),
        Err(_) => assert_eq!(config.deepl_endpoint, "https://api-free.deepl.com/v2/translate"),
    }
    assert!(config.deepl_api_key.is_none());
}
