use jot_sync::credentials::at_step;
use jot_sync::credentials::check_stored;
use jot_sync::credentials::delete_credential;
use jot_sync::credentials::get_chatgpt_credential;
use jot_sync::credentials::get_credential;
use jot_sync::credentials::get_deepl_credential;
use jot_sync::credentials::get_languagetool_credential;
use jot_sync::credentials::get_nextcloud_credential;
use jot_sync::credentials::has_chatgpt_credential;
use jot_sync::credentials::has_deepl_credential;
use jot_sync::credentials::has_languagetool_credential;
use jot_sync::credentials::is_missing;
use jot_sync::credentials::store_credential;
use jot_sync::credentials::store_nextcloud_credential;
use jot_sync::credentials::StoreStep;
use jot_sync::credentials::CHATGPT_SERVICE;
use jot_sync::credentials::DEEPL_SERVICE;
use jot_sync::credentials::LANGUAGETOOL_SERVICE;
use jot_sync::credentials::NEXTCLOUD_SERVICE;
use jot_sync::types::NextcloudConfig;

#[test]
fn services_have_their_names() {
    assert_eq!(NEXTCLOUD_SERVICE, "jot.nextcloud");
    assert_eq!(LANGUAGETOOL_SERVICE, "jot.languagetool");
    assert_eq!(DEEPL_SERVICE, "jot.deepl");
    assert_eq!(CHATGPT_SERVICE, "jot.chatgpt");
}

#[test]
fn read_back_secret_confirms_the_store() {
    assert_eq!(check_stored("secret", Ok("secret".to_string())), Ok(()));
    assert_eq!(check_stored("", Ok(String::new())), Ok(()));
}

#[test]
fn other_secret_read_back_fails_the_check() {
    assert_eq!(
        check_stored("secret", Ok("Secret".to_string())),
        Err("Password was stored but verification failed".to_string())
    );
    assert_eq!(
        check_stored("secret", Ok(String::new())),
        Err("Password was stored but verification failed".to_string())
    );
}

#[test]
fn secret_that_cannot_be_read_back_fails_the_check() {
    assert_eq!(
        check_stored("secret", Err("store is locked".to_string())),
        Err("Password was seemingly stored but couldn't be retrieved: store is locked".to_string())
    );
}

#[test]
fn missing_secret_is_told_from_other_failures() {
    assert!(is_missing("Failed to retrieve credential: entry not found"));
    assert!(is_missing("not found"));
    assert!(!is_missing("Failed to retrieve credential: store is locked"));
    assert!(!is_missing("Not Found"));
    assert!(!is_missing(""));
}

#[test]
fn stored_secret_is_verified_by_reading_it_back() {
    match store_credential("jot.test", "store-user", "secret") {
        Ok(()) => {}
        Err(message) => assert!(
            message.starts_with("Keyring error: ")
                || message.starts_with("Failed to store credential: ")
                || message == "Password was stored but verification failed"
                || message.starts_with("Password was seemingly stored but couldn't be retrieved: "),
            "unexpected message: {}",
            message
        ),
    }
}

#[test]
fn secret_that_was_never_stored_is_reported() {
    match get_credential("jot.test", "nobody-stored-this") {
        Ok(_) => {}
        Err(message) => assert!(
            message.starts_with("Keyring error: ")
                || message.starts_with("Failed to retrieve credential: "),
            "unexpected message: {}",
            message
        ),
    }
}

#[test]
fn deleting_reports_its_step() {
    match delete_credential("jot.test", "nobody-stored-this") {
        Ok(()) => {}
        Err(message) => assert!(
            message.starts_with("Keyring error: ")
                || message.starts_with("Failed to delete credential: "),
            "unexpected message: {}",
            message
        ),
    }
}

#[test]
fn empty_password_is_refused_before_the_store_is_asked() {
    assert_eq!(
        store_nextcloud_credential("alice".to_string(), String::new()),
        Err("Password cannot be empty".to_string())
    );
}

#[test]
fn lookups_agree_with_their_has_functions() {
    assert_eq!(
        has_languagetool_credential("jot-test-user".to_string()),
        get_languagetool_credential("jot-test-user".to_string()).is_ok()
    );
    assert_eq!(has_deepl_credential("jot.test.app"), get_deepl_credential("jot.test.app").is_ok());
    assert_eq!(
        has_chatgpt_credential("jot.test.app"),
        get_chatgpt_credential("jot.test.app").is_ok()
    );
    match get_nextcloud_credential("jot-test-user".to_string()) {
        Ok(_) => {}
        Err(message) => assert!(
            message.starts_with("Keyring error: ")
                || message.starts_with("Failed to retrieve credential: ")
        ),
    }
}

#[test]
fn settings_without_account_load_nothing() {
    let mut config = NextcloudConfig::default();
    config.password = "kept".to_string();
    assert_eq!(config.load_credentials(), Ok(()));
    assert_eq!(config.password, "kept");
    assert_eq!(config.username, "");
    assert_eq!(config.sync_folder, "/jot");
}

#[test]
fn loading_changes_nothing_but_the_password() {
    let mut config = NextcloudConfig::default();
    config.server_url = "https://cloud.example.com".to_string();
    config.username = "jot-test-loader".to_string();
    config.password = "before".to_string();
    config.sync_interval_minutes = 5;
    let loaded = config.load_credentials();
    assert_eq!(config.server_url, "https://cloud.example.com");
    assert_eq!(config.username, "jot-test-loader");
    assert_eq!(config.sync_interval_minutes, 5);
    if let Err(message) = loaded {
        assert_eq!(config.password, "before");
        assert!(!message.contains("not found"));
    }
}

#[test]
fn found_secret_becomes_the_password() {
    let mut config = NextcloudConfig::default();
    config.username = "alice".to_string();
    assert_eq!(config.apply_credential(Ok("from the store".to_string())), Ok(()));
    assert_eq!(config.password, "from the store");
    assert_eq!(config.username, "alice");
}

#[test]
fn missing_secret_is_no_failure() {
    let mut config = NextcloudConfig::default();
    config.password = "kept".to_string();
    assert_eq!(config.apply_credential(Err("credential not found".to_string())), Ok(()));
    assert_eq!(config.password, "kept");
}

#[test]
fn other_lookup_failure_is_handed_on() {
    let mut config = NextcloudConfig::default();
    config.password = "kept".to_string();
    assert_eq!(
        config.apply_credential(Err("store is locked".to_string())),
        Err("store is locked".to_string())
    );
    assert_eq!(config.password, "kept");
}

#[test]
fn settings_without_account_or_password_save_nothing() {
    let mut config = NextcloudConfig::default();
    assert_eq!(config.save_credentials(), Ok(()));
    config.username = "alice".to_string();
    assert_eq!(config.save_credentials(), Ok(()));
    config.username = String::new();
    config.password = "secret".to_string();
    assert_eq!(config.save_credentials(), Ok(()));
}

#[test]
fn saving_reports_the_step_that_failed() {
    let mut config = NextcloudConfig::default();
    config.username = "jot-test-saver".to_string();
    config.password = "secret".to_string();
    if let Err(message) = config.save_credentials() {
        assert!(
            message.starts_with("Keyring error: ")
                || message.starts_with("Failed to store credential: ")
                || message == "Password was stored but verification failed"
                || message.starts_with("Password was seemingly stored but couldn't be retrieved: ")
        );
    }
}

#[test]
fn failure_is_reported_with_the_words_of_its_step() {
    assert_eq!(
        at_step::<()>(StoreStep::Open, Err("bad name".to_string())),
        Err("Keyring error: bad name".to_string())
    );
    assert_eq!(
        at_step::<()>(StoreStep::Store, Err("store is locked".to_string())),
        Err("Failed to store credential: store is locked".to_string())
    );
    assert_eq!(
        at_step::<String>(StoreStep::Retrieve, Err("no entry".to_string())),
        Err("Failed to retrieve credential: no entry".to_string())
    );
    assert_eq!(
        at_step::<()>(StoreStep::Delete, Err(String::new())),
        Err("Failed to delete credential: ".to_string())
    );
}

#[test]
fn success_of_a_step_is_handed_on() {
    assert_eq!(at_step(StoreStep::Retrieve, Ok("secret".to_string())), Ok("secret".to_string()));
    assert_eq!(at_step(StoreStep::Retrieve, Ok(String::new())), Ok(String::new()));
    assert_eq!(at_step(StoreStep::Store, Ok(())), Ok(()));
    assert_eq!(at_step(StoreStep::Delete, Ok(7u8)), Ok(7u8));
}

#[test]
fn failed_load_is_the_failure_of_the_lookup() {
    let mut config = NextcloudConfig::default();
    config.username = "jot-test-nobody".to_string();
    config.password = "before".to_string();
    match config.load_credentials() {
        Ok(()) => {}
        Err(message) => {
            assert_eq!(config.password, "before");
            assert!(
                message.starts_with("Keyring error: ")
                    || message.starts_with("Failed to retrieve credential: "),
                "unexpected message: {}",
                message
            );
        }
    }
}
