use jot_sync::commands::config_after_pass;
use jot_sync::commands::credentials_failure_message;
use jot_sync::commands::failure_message;
use jot_sync::commands::get_sync_status;
use jot_sync::commands::note_updated_event;
use jot_sync::commands::PassKind;
use jot_sync::commands::Stage;
use jot_sync::error::SyncError;
use jot_sync::language::effective_language;
use jot_sync::language::LanguageConfig;
use jot_sync::logging::LogLevel;
use jot_sync::types::NextcloudConfig;
use jot_sync::types::SyncStatus;

#[test]
fn default_settings() {
    let config = NextcloudConfig::default();
    assert_eq!(config.server_url, "");
    assert_eq!(config.username, "");
    assert_eq!(config.password, "");
    assert_eq!(config.sync_folder, "/jot");
    assert_eq!(config.last_sync, None);
    assert!(!config.auto_sync);
    assert!(!config.sync_on_startup);
    assert_eq!(config.sync_interval_minutes, 30);
    assert!(config.show_sync_status);
    assert!(!config.is_complete());
}

#[test]
fn settings_are_complete_with_server_account_and_secret() {
    let mut config = NextcloudConfig::default();
    config.server_url = "https://cloud.example.com".to_string();
    assert!(!config.is_complete());
    config.username = "alice".to_string();
    assert!(!config.is_complete());
    config.password = "secret".to_string();
    assert!(config.is_complete());
}

#[test]
fn stored_settings_never_hold_the_password() {
    let mut config = NextcloudConfig::default();
    config.server_url = "https://cloud.example.com".to_string();
    config.username = "alice".to_string();
    config.password = "secret".to_string();
    config.sync_folder = "/notes".to_string();
    config.last_sync = Some(77);
    config.auto_sync = true;
    config.sync_on_startup = true;
    config.sync_interval_minutes = 5;
    config.show_sync_status = false;
    let stored = config.for_storage();
    assert_eq!(stored.password, "");
    assert_eq!(stored.server_url, "https://cloud.example.com");
    assert_eq!(stored.username, "alice");
    assert_eq!(stored.sync_folder, "/notes");
    assert_eq!(stored.last_sync, Some(77));
    assert!(stored.auto_sync);
    assert!(stored.sync_on_startup);
    assert_eq!(stored.sync_interval_minutes, 5);
    assert!(!stored.show_sync_status);
    assert_eq!(config.password, "secret");
}

#[test]
fn last_sync_is_updated_after_a_pass() {
    let mut config = NextcloudConfig::default();
    config.username = "alice".to_string();
    config.password = "secret".to_string();
    let updated = config.with_last_sync(Some(4242));
    assert_eq!(updated.last_sync, Some(4242));
    assert_eq!(updated.username, "alice");
    assert_eq!(updated.password, "secret");
}

#[test]
fn settings_written_after_a_pass_hold_the_time_and_no_password() {
    let mut config = NextcloudConfig::default();
    config.server_url = "https://cloud.example.com".to_string();
    config.username = "alice".to_string();
    config.password = "secret".to_string();
    config.auto_sync = true;
    config.sync_interval_minutes = 5;
    let report = SyncStatus::idle(Some(9000));
    let after = config_after_pass(&config, &report);
    assert_eq!(after.last_sync, Some(9000));
    assert_eq!(after.password, "");
    assert_eq!(after.server_url, "https://cloud.example.com");
    assert_eq!(after.username, "alice");
    assert_eq!(after.sync_folder, "/jot");
    assert!(after.auto_sync);
    assert_eq!(after.sync_interval_minutes, 5);
    assert_eq!(config.password, "secret");
}

#[test]
fn failed_passes_name_their_stage() {
    assert_eq!(PassKind::Sync.failure_stage(), Stage::Pass);
    assert_eq!(PassKind::Upload.failure_stage(), Stage::Container);
    assert_eq!(PassKind::Download.failure_stage(), Stage::Pass);
    assert_eq!(PassKind::Sync.label(), None);
    assert_eq!(PassKind::Upload.label(), Some("upload"));
    assert_eq!(PassKind::Download.label(), Some("download"));
}

#[test]
fn status_before_any_pass_is_empty() {
    let mut config = NextcloudConfig::default();
    config.last_sync = Some(123);
    let status = get_sync_status(&config);
    assert_eq!(status.last_sync, Some(123));
    assert!(!status.syncing);
    assert!(status.error.is_none());
    assert!(status.notes_status.is_empty());
    let fresh = get_sync_status(&NextcloudConfig::default());
    assert_eq!(fresh.last_sync, None);
}

#[test]
fn failures_name_their_stage() {
    let error = SyncError::Configuration("Nextcloud configuration is incomplete".to_string());
    assert_eq!(
        failure_message(Stage::ClientSetup, &error),
        "Failed to create Nextcloud client: Configuration error: Nextcloud configuration is incomplete"
    );
    let error = SyncError::Request("Connection test failed: refused".to_string());
    assert_eq!(
        failure_message(Stage::ConnectionTest, &error),
        "Connection test failed: Request error: Connection test failed: refused"
    );
    let error = SyncError::WebDav("Failed to check directory, status: 403 Forbidden".to_string());
    assert_eq!(
        failure_message(Stage::Container, &error),
        "Failed to ensure remote directory: WebDAV error: Failed to check directory, status: 403 Forbidden"
    );
    assert_eq!(
        failure_message(Stage::Pass, &error),
        "Sync failed: WebDAV error: Failed to check directory, status: 403 Forbidden"
    );
    let error = SyncError::FileSystem("read-only file system".to_string());
    assert_eq!(
        failure_message(Stage::ConfigSave, &error),
        "Failed to save config: File system error: read-only file system"
    );
    assert_eq!(
        credentials_failure_message("Password cannot be empty"),
        "Failed to save credentials: Password cannot be empty"
    );
}

#[test]
fn update_events_are_named_after_the_note() {
    assert_eq!(note_updated_event(0), "note-updated-0");
    assert_eq!(note_updated_event(6), "note-updated-6");
    assert_eq!(note_updated_event(10), "note-updated-10");
}

#[test]
fn log_levels_have_their_numbers() {
    let levels = [
        (LogLevel::Trace, 0),
        (LogLevel::Debug, 1),
        (LogLevel::Info, 2),
        (LogLevel::Warn, 3),
        (LogLevel::Error, 4),
        (LogLevel::Off, 5),
    ];
    for (level, number) in levels {
        assert_eq!(level.index(), number);
        assert_eq!(LogLevel::from_index(number), level);
        assert_eq!(LogLevel::from_index(level.index()), level);
    }
}

#[test]
fn unknown_level_number_is_info() {
    assert_eq!(LogLevel::from_index(6), LogLevel::Info);
    assert_eq!(LogLevel::from_index(usize::MAX), LogLevel::Info);
}

#[test]
fn level_lets_through_its_own_and_graver_records() {
    assert!(LogLevel::Info.allows(LogLevel::Info));
    assert!(LogLevel::Info.allows(LogLevel::Warn));
    assert!(LogLevel::Info.allows(LogLevel::Error));
    assert!(!LogLevel::Info.allows(LogLevel::Debug));
    assert!(!LogLevel::Info.allows(LogLevel::Trace));
    assert!(LogLevel::Trace.allows(LogLevel::Trace));
    assert!(LogLevel::Error.allows(LogLevel::Error));
    assert!(!LogLevel::Error.allows(LogLevel::Warn));
}

#[test]
fn silent_level_lets_nothing_through() {
    for record in [LogLevel::Trace, LogLevel::Debug, LogLevel::Info, LogLevel::Warn, LogLevel::Error] {
        assert!(!LogLevel::Off.allows(record));
    }
    assert!(!LogLevel::Trace.allows(LogLevel::Off));
    assert!(!LogLevel::Off.allows(LogLevel::Off));
}

#[test]
fn default_language_settings() {
    let config = LanguageConfig::default();
    assert!(config.languagetool_api_key.is_none());
    assert!(config.languagetool_username.is_none());
    assert_eq!(config.languagetool_endpoint, "https://api.languagetool.org/v2/check");
    assert!(config.deepl_api_key.is_none());
    assert_eq!(config.deepl_endpoint, "https://api-free.deepl.com/v2/translate");
    assert!(!config.sends_account());
}

#[test]
fn checked_language_defaults_to_american_english() {
    assert_eq!(effective_language(None), "en-US");
    assert_eq!(effective_language(Some(String::new())), "en-US");
    assert_eq!(effective_language(Some("auto".to_string())), "en-US");
    assert_eq!(effective_language(Some("de-DE".to_string())), "de-DE");
    assert_eq!(effective_language(Some("Auto".to_string())), "Auto");
}

#[test]
fn account_is_sent_only_with_key_and_name() {
    let mut config = LanguageConfig::default();
    config.languagetool_api_key = Some("key".to_string());
    assert!(!config.sends_account());
    config.languagetool_username = Some(String::new());
    assert!(!config.sends_account());
    config.languagetool_username = Some("alice".to_string());
    assert!(config.sends_account());
    config.languagetool_api_key = Some(String::new());
    assert!(!config.sends_account());
}

#[test]
fn keys_that_were_found_are_taken() {
    let mut config = LanguageConfig::default();
    config.apply_languagetool_key(Ok("lt-key".to_string()));
    config.apply_deepl_key(Ok("deepl-key".to_string()));
    assert_eq!(config.languagetool_api_key.as_deref(), Some("lt-key"));
    assert_eq!(config.deepl_api_key.as_deref(), Some("deepl-key"));
    config.apply_languagetool_key(Err("locked".to_string()));
    config.apply_deepl_key(Err("credential not found".to_string()));
    assert_eq!(config.languagetool_api_key.as_deref(), Some("lt-key"));
    assert_eq!(config.deepl_api_key.as_deref(), Some("deepl-key"));
}

#[test]
fn loading_language_credentials_always_succeeds() {
    let mut config = LanguageConfig::default();
    config.languagetool_api_key = Some("kept".to_string());
    assert_eq!(config.load_credentials("jot.test.app"), Ok(()));
    assert_eq!(config.languagetool_api_key.as_deref(), Some("kept"));
    assert!(config.languagetool_username.is_none());
    assert_eq!(config.languagetool_endpoint, "https://api.languagetool.org/v2/check");
    assert_eq!(config.deepl_endpoint, "https://api-free.deepl.com/v2/translate");
}

#[test]
fn loading_never_takes_a_key_away() {
    let mut config = LanguageConfig::default();
    config.languagetool_username = Some("jot-test-lt-user".to_string());
    config.languagetool_api_key = Some("held".to_string());
    config.deepl_api_key = Some("held too".to_string());
    assert_eq!(config.load_credentials("jot.test.app"), Ok(()));
    assert!(config.languagetool_api_key.is_some());
    assert!(config.deepl_api_key.is_some());
    assert_eq!(config.languagetool_username.as_deref(), Some("jot-test-lt-user"));
}
