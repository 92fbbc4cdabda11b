//! Secrets in the platform's secret store, filed under a service name and
//! an account name.

use crate::text::same_text;
use keyring::Entry;
use vstd::prelude::*;
use vstd::string::StringExecFns;

verus! {

/// An entry of the platform's secret store. Nothing is known of what is
/// inside it.
#[verifier::external_type_specification]
#[verifier::external_body]
pub struct ExEntry(keyring::Entry);

/// The error of the platform's secret store. Nothing is known of what is
/// inside it.
#[verifier::external_type_specification]
#[verifier::external_body]
pub struct ExKeyringError(keyring::Error);

/// `keyring::Entry::new` makes the entry for a service and an account, or
/// fails where the store refuses the two names. Whether it fails depends on
/// the platform, so nothing is claimed of the result.
pub assume_specification[ keyring::Entry::new ](service: &str, user: &str) -> (entry: Result<
    keyring::Entry,
    keyring::Error,
>)
;

/// `keyring::Entry::set_password` files the secret. Whether the store keeps
/// it depends on the platform, so nothing is claimed of the result.
pub assume_specification[ keyring::Entry::set_password ](
    entry: &keyring::Entry,
    password: &str,
) -> (stored: Result<(), keyring::Error>)
;

/// `keyring::Entry::get_password` reads the secret back. What the store
/// holds depends on the platform and on what ran before, so nothing is
/// claimed of the result.
pub assume_specification[ keyring::Entry::get_password ](entry: &keyring::Entry) -> (password:
    Result<String, keyring::Error>)
;

/// `keyring::Entry::delete_credential` removes the secret. Nothing is
/// claimed of the result.
pub assume_specification[ keyring::Entry::delete_credential ](entry: &keyring::Entry) -> (deleted:
    Result<(), keyring::Error>)
;

/// Renders an error of the secret store with its `Display` impl. The text
/// depends on the platform's own error, so nothing is claimed of it.
#[verifier::external_body]
fn keyring_error_text(error: &keyring::Error) -> (text: String) {
    error.to_string()
}

/// The service under which the secret of the sync account is filed.
pub const NEXTCLOUD_SERVICE: &'static str = "jot.nextcloud";

/// The service under which the key of the grammar checker is filed.
pub const LANGUAGETOOL_SERVICE: &'static str = "jot.languagetool";

/// The service under which the key of the translator is filed.
pub const DEEPL_SERVICE: &'static str = "jot.deepl";

/// The service under which the key of the chat service is filed.
pub const CHATGPT_SERVICE: &'static str = "jot.chatgpt";

/// Whether `text` begins with `prefix`.
pub open spec fn spec_has_prefix(text: Seq<char>, prefix: Seq<char>) -> bool {
    prefix.len() <= text.len() && text.subrange(0, prefix.len() as int) == prefix
}

/// A step of dealing with the secret store.
#[derive(Clone, Copy, Debug, PartialEq, Eq, Structural)]
pub enum StoreStep {
    /// Opening the entry for a service and an account.
    Open,
    /// Filing a secret.
    Store,
    /// Reading a secret.
    Retrieve,
    /// Deleting a secret.
    Delete,
}

/// The words with which the report of a failure at `step` begins.
pub open spec fn spec_step_prefix(step: StoreStep) -> Seq<char> {
    match step {
        StoreStep::Open => "Keyring error: "@,
        StoreStep::Store => "Failed to store credential: "@,
        StoreStep::Retrieve => "Failed to retrieve credential: "@,
        StoreStep::Delete => "Failed to delete credential: "@,
    }
}

/// The report of a failure at `step` that the store describes as `detail`:
/// the words of the step, then the store's own description.
pub open spec fn spec_step_failure(step: StoreStep, detail: Seq<char>) -> Seq<char> {
    spec_step_prefix(step) + detail
}

/// The report of a failure begins with the words of its step.
pub proof fn lemma_step_failure_has_prefix(step: StoreStep, detail: Seq<char>)
    ensures
        spec_has_prefix(spec_step_failure(step, detail), spec_step_prefix(step)),
{
    let message = spec_step_failure(step, detail);
    let prefix = spec_step_prefix(step);
    assert(message.subrange(0, prefix.len() as int) =~= prefix);
}

/// Says what the outcome of a step means for the caller. What the store
/// handed out on success is handed on as it is. A failure, which comes
/// with the store's own description, is reported with the words of the
/// step in front of that description.
pub fn at_step<T>(step: StoreStep, outcome: Result<T, String>) -> (told: Result<T, String>)
    ensures
        match outcome {
            Ok(value) => told == Ok::<T, String>(value),
            Err(detail) => told matches Err(message) && message@ == spec_step_failure(
                step,
                detail@,
            ),
        },
{
    match outcome {
        Ok(value) => Ok(value),
        Err(detail) => {
            let prefix = match step {
                StoreStep::Open => "Keyring error: ",
                StoreStep::Store => "Failed to store credential: ",
                StoreStep::Retrieve => "Failed to retrieve credential: ",
                StoreStep::Delete => "Failed to delete credential: ",
            };
            let mut message = String::from_str(prefix);
            message.append(detail.as_str());
            Err(message)
        },
    }
}

/// Puts the store's own description in the place of its error.
fn described<T>(outcome: Result<T, keyring::Error>) -> (plain: Result<T, String>)
    ensures
        match outcome {
            Ok(value) => plain == Ok::<T, String>(value),
            Err(_) => plain is Err,
        },
{
    match outcome {
        Ok(value) => Ok(value),
        Err(e) => Err(keyring_error_text(&e)),
    }
}

/// Reports the outcome of a step that the store has just made.
fn asked<T>(step: StoreStep, outcome: Result<T, keyring::Error>) -> (told: Result<T, String>)
    ensures
        match outcome {
            Ok(value) => told == Ok::<T, String>(value),
            Err(_) => told matches Err(message) && spec_has_prefix(
                message@,
                spec_step_prefix(step),
            ),
        },
{
    let plain = described(outcome);
    let ghost seen = plain;
    let told = at_step(step, plain);
    proof {
        if seen is Err {
            lemma_step_failure_has_prefix(step, seen->Err_0@);
        }
    }
    told
}

/// Opens the entry for a service and an account.
fn create_entry(service: &str, username: &str) -> (entry: Result<Entry, String>)
    ensures
        entry matches Err(message) ==> spec_has_prefix(message@, "Keyring error: "@),
{
    asked(StoreStep::Open, Entry::new(service, username))
}

/// What reading a secret back says about having stored it: the secret is
/// stored where the store hands back the very same text.
pub open spec fn spec_check_stored(password: Seq<char>, retrieved: Result<Seq<char>, Seq<char>>)
    -> Result<(), Seq<char>> {
    match retrieved {
        Ok(text) => if text == password {
            Ok(())
        } else {
            Err("Password was stored but verification failed"@)
        },
        Err(detail) => Err("Password was seemingly stored but couldn't be retrieved: "@ + detail),
    }
}

/// The mathematical content of a result whose error is a message.
pub open spec fn spec_unit_result(result: Result<(), String>) -> Result<(), Seq<char>> {
    match result {
        Ok(_) => Ok(()),
        Err(message) => Err(message@),
    }
}

/// The mathematical content of a text or a message.
pub open spec fn spec_text_or_message(result: Result<String, String>) -> Result<
    Seq<char>,
    Seq<char>,
> {
    match result {
        Ok(text) => Ok(text@),
        Err(message) => Err(message@),
    }
}

/// Judges whether a secret was stored from what the store handed back when
/// it was read again.
pub fn check_stored(password: &str, retrieved: Result<String, String>) -> (checked: Result<
    (),
    String,
>)
    ensures
        spec_unit_result(checked) == spec_check_stored(password@, spec_text_or_message(retrieved)),
{
    match retrieved {
        Ok(text) => {
            if same_text(text.as_str(), password) {
                Ok(())
            } else {
                Err(String::from_str("Password was stored but verification failed"))
            }
        },
        Err(detail) => {
            let mut message = String::from_str(
                "Password was seemingly stored but couldn't be retrieved: ",
            );
            message.append(detail.as_str());
            Err(message)
        },
    }
}

/// Whether `message` is one of the failures that storing a secret reports.
pub open spec fn spec_is_store_failure(message: Seq<char>) -> bool {
    ||| spec_has_prefix(message, "Keyring error: "@)
    ||| spec_has_prefix(message, "Failed to store credential: "@)
    ||| message == "Password was stored but verification failed"@
    ||| spec_has_prefix(message, "Password was seemingly stored but couldn't be retrieved: "@)
}

/// Stores a secret and reads it back to make sure that the store kept it.
/// Whether that succeeds is up to the store; where it fails, the message
/// says at which step.
pub fn store_credential(service: &str, username: &str, password: &str) -> (stored: Result<
    (),
    String,
>)
    ensures
        stored matches Err(message) ==> spec_is_store_failure(message@),
{
    let entry = match create_entry(service, username) {
        Ok(entry) => entry,
        Err(message) => {
            return Err(message);
        },
    };
    match asked(StoreStep::Store, entry.set_password(password)) {
        Ok(_) => {
            let retrieved = described(entry.get_password());
            let ghost read_failed = retrieved is Err;
            let checked = check_stored(password, retrieved);
            proof {
                if checked is Err && read_failed {
                    let prefix = "Password was seemingly stored but couldn't be retrieved: "@;
                    let message = checked->Err_0@;
                    assert(message.subrange(0, prefix.len() as int) =~= prefix);
                }
            }
            checked
        },
        Err(message) => Err(message),
    }
}

/// Whether `message` is one of the failures that reading a secret reports.
pub open spec fn spec_is_retrieve_failure(message: Seq<char>) -> bool {
    ||| spec_has_prefix(message, "Keyring error: "@)
    ||| spec_has_prefix(message, "Failed to retrieve credential: "@)
}

/// Reads a secret. Whether there is one is up to the store; where there is
/// none, the message says at which step the store failed.
pub fn get_credential(service: &str, username: &str) -> (password: Result<String, String>)
    ensures
        password matches Err(message) ==> spec_is_retrieve_failure(message@),
{
    let entry = match create_entry(service, username) {
        Ok(entry) => entry,
        Err(message) => {
            return Err(message);
        },
    };
    asked(StoreStep::Retrieve, entry.get_password())
}

/// Whether `message` is one of the failures that deleting a secret reports.
pub open spec fn spec_is_delete_failure(message: Seq<char>) -> bool {
    ||| spec_has_prefix(message, "Keyring error: "@)
    ||| spec_has_prefix(message, "Failed to delete credential: "@)
}

/// Deletes a secret.
pub fn delete_credential(service: &str, username: &str) -> (deleted: Result<(), String>)
    ensures
        deleted matches Err(message) ==> spec_is_delete_failure(message@),
{
    let entry = match create_entry(service, username) {
        Ok(entry) => entry,
        Err(message) => {
            return Err(message);
        },
    };
    asked(StoreStep::Delete, entry.delete_credential())
}

/// Stores the secret of the sync account. An empty secret is refused
/// before the store is asked.
pub fn store_nextcloud_credential(username: String, password: String) -> (stored: Result<
    (),
    String,
>)
    ensures
        password@.len() == 0 ==> spec_unit_result(stored) == Err::<(), Seq<char>>(
            "Password cannot be empty"@,
        ),
        password@.len() > 0 ==> (stored matches Err(message) ==> spec_is_store_failure(
            message@,
        )),
{
    if password.as_str().is_empty() {
        return Err(String::from_str("Password cannot be empty"));
    }
    store_credential(NEXTCLOUD_SERVICE, username.as_str(), password.as_str())
}

/// Reads the secret of the sync account.
pub fn get_nextcloud_credential(username: String) -> (password: Result<String, String>)
    ensures
        password matches Err(message) ==> spec_is_retrieve_failure(message@),
{
    get_credential(NEXTCLOUD_SERVICE, username.as_str())
}

/// Deletes the secret of the sync account.
pub fn delete_nextcloud_credential(username: String) -> (deleted: Result<(), String>)
    ensures
        deleted matches Err(message) ==> spec_is_delete_failure(message@),
{
    delete_credential(NEXTCLOUD_SERVICE, username.as_str())
}

/// Stores the key of the grammar checker.
pub fn store_languagetool_credential(username: String, api_key: String) -> (stored: Result<
    (),
    String,
>)
    ensures
        stored matches Err(message) ==> spec_is_store_failure(message@),
{
    store_credential(LANGUAGETOOL_SERVICE, username.as_str(), api_key.as_str())
}

/// Reads the key of the grammar checker.
pub fn get_languagetool_credential(username: String) -> (key: Result<String, String>)
    ensures
        key matches Err(message) ==> spec_is_retrieve_failure(message@),
{
    get_credential(LANGUAGETOOL_SERVICE, username.as_str())
}

/// Tells whether a key of the grammar checker can be read.
pub fn has_languagetool_credential(username: String) -> bool {
    get_credential(LANGUAGETOOL_SERVICE, username.as_str()).is_ok()
}

/// Stores the key of the translator. The key is filed under the
/// identifier of the installation.
pub fn store_deepl_credential(app_id: &str, api_key: String) -> (stored: Result<(), String>)
    ensures
        stored matches Err(message) ==> spec_is_store_failure(message@),
{
    store_credential(DEEPL_SERVICE, app_id, api_key.as_str())
}

/// Reads the key of the translator.
pub fn get_deepl_credential(app_id: &str) -> (key: Result<String, String>)
    ensures
        key matches Err(message) ==> spec_is_retrieve_failure(message@),
{
    get_credential(DEEPL_SERVICE, app_id)
}

/// Tells whether a key of the translator can be read.
pub fn has_deepl_credential(app_id: &str) -> bool {
    get_credential(DEEPL_SERVICE, app_id).is_ok()
}

/// Stores the key of the chat service. The key is filed under the
/// identifier of the installation.
pub fn store_chatgpt_credential(app_id: &str, api_key: String) -> (stored: Result<(), String>)
    ensures
        stored matches Err(message) ==> spec_is_store_failure(message@),
{
    store_credential(CHATGPT_SERVICE, app_id, api_key.as_str())
}

/// Reads the key of the chat service.
pub fn get_chatgpt_credential(app_id: &str) -> (key: Result<String, String>)
    ensures
        key matches Err(message) ==> spec_is_retrieve_failure(message@),
{
    get_credential(CHATGPT_SERVICE, app_id)
}

/// Tells whether a key of the chat service can be read.
pub fn has_chatgpt_credential(app_id: &str) -> bool {
    get_credential(CHATGPT_SERVICE, app_id).is_ok()
}

/// Whether a failed lookup only says that no secret has been stored yet.
pub open spec fn spec_is_missing(message: Seq<char>) -> bool {
    crate::text::spec_contains(message, "not found"@)
}

/// Tells whether a failed lookup only says that no secret has been stored
/// yet.
pub fn is_missing(message: &str) -> (missing: bool)
    ensures
        missing == spec_is_missing(message@),
{
    crate::text::contains(message, "not found")
}

} // verus!
