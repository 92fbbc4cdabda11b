//! The settings of the language services: the grammar checker and the
//! translator.

use crate::credentials::get_deepl_credential;
use crate::credentials::get_languagetool_credential;
use crate::credentials::spec_is_store_failure;
use crate::credentials::store_deepl_credential;
use crate::credentials::store_languagetool_credential;
use crate::http::spec_option_text;
use crate::text::same_text;
use vstd::prelude::*;
use vstd::string::StringExecFns;

verus! {

/// The settings of the language services. The two keys live in the secret
/// store and never in the settings file.
#[derive(Clone, Debug)]
pub struct LanguageConfig {
    /// Key of the grammar checker.
    pub languagetool_api_key: Option<String>,
    /// Account name at the grammar checker.
    pub languagetool_username: Option<String>,
    /// Address of the grammar checker.
    pub languagetool_endpoint: String,
    /// Key of the translator.
    pub deepl_api_key: Option<String>,
    /// Address of the translator.
    pub deepl_endpoint: String,
}

/// The mathematical content of a [`LanguageConfig`].
pub struct LanguageConfigView {
    pub languagetool_api_key: Option<Seq<char>>,
    pub languagetool_username: Option<Seq<char>>,
    pub languagetool_endpoint: Seq<char>,
    pub deepl_api_key: Option<Seq<char>>,
    pub deepl_endpoint: Seq<char>,
}

impl View for LanguageConfig {
    type V = LanguageConfigView;

    open spec fn view(&self) -> LanguageConfigView {
        LanguageConfigView {
            languagetool_api_key: spec_option_text(self.languagetool_api_key),
            languagetool_username: spec_option_text(self.languagetool_username),
            languagetool_endpoint: self.languagetool_endpoint@,
            deepl_api_key: spec_option_text(self.deepl_api_key),
            deepl_endpoint: self.deepl_endpoint@,
        }
    }
}

/// The settings before the user has entered any: no keys, no account, and
/// the public addresses of the two services.
pub open spec fn spec_default_language_config() -> LanguageConfigView {
    LanguageConfigView {
        languagetool_api_key: None,
        languagetool_username: None,
        languagetool_endpoint: "https://api.languagetool.org/v2/check"@,
        deepl_api_key: None,
        deepl_endpoint: "https://api-free.deepl.com/v2/translate"@,
    }
}

impl Default for LanguageConfig {
    fn default() -> (config: LanguageConfig)
        ensures
            config@ == spec_default_language_config(),
    {
        LanguageConfig {
            languagetool_api_key: None,
            languagetool_username: None,
            languagetool_endpoint: String::from_str("https://api.languagetool.org/v2/check"),
            deepl_api_key: None,
            deepl_endpoint: String::from_str("https://api-free.deepl.com/v2/translate"),
        }
    }
}

/// A key after a lookup in the secret store: the key that was found, or the
/// key as it was where the lookup failed.
pub open spec fn spec_key_after(before: Option<Seq<char>>, lookup: Result<Seq<char>, Seq<char>>)
    -> Option<Seq<char>> {
    match lookup {
        Ok(key) => Some(key),
        Err(_) => before,
    }
}

/// Whether a key is, after a lookup, what a lookup can leave behind: the
/// key as it was before, or some key that was found. A lookup never takes a
/// key away.
pub open spec fn spec_kept_or_found(before: Option<Seq<char>>, after: Option<Seq<char>>) -> bool {
    after == before || after is Some
}

/// The language in which a text is checked: the one asked for, or American
/// English where none is asked for or the choice is left to the service.
pub open spec fn spec_effective_language(language: Option<Seq<char>>) -> Seq<char> {
    match language {
        Some(code) => if code.len() > 0 && code != "auto"@ {
            code
        } else {
            "en-US"@
        },
        None => "en-US"@,
    }
}

/// Picks the language in which a text is checked.
pub fn effective_language(language: Option<String>) -> (code: String)
    ensures
        code@ == spec_effective_language(spec_option_text(language)),
{
    match language {
        Some(code) => {
            if !code.as_str().is_empty() && !same_text(code.as_str(), "auto") {
                code
            } else {
                String::from_str("en-US")
            }
        },
        None => String::from_str("en-US"),
    }
}

impl LanguageConfig {
    /// Whether a request to the grammar checker names the account: both a
    /// key and an account name are set, and neither is empty.
    pub open spec fn spec_sends_account(&self) -> bool {
        &&& self@.languagetool_api_key matches Some(key)
        &&& key.len() > 0
        &&& self@.languagetool_username matches Some(name)
        &&& name.len() > 0
    }

    /// Tells whether a request to the grammar checker names the account.
    pub fn sends_account(&self) -> (sends: bool)
        ensures
            sends == self.spec_sends_account(),
    {
        match (&self.languagetool_api_key, &self.languagetool_username) {
            (Some(key), Some(name)) => !key.as_str().is_empty() && !name.as_str().is_empty(),
            _ => false,
        }
    }

    /// Takes the outcome of the lookup of the grammar checker's key into
    /// the settings.
    pub fn apply_languagetool_key(&mut self, lookup: Result<String, String>)
        ensures
            final(self)@ == (LanguageConfigView {
                languagetool_api_key: spec_key_after(
                    old(self)@.languagetool_api_key,
                    crate::credentials::spec_text_or_message(lookup),
                ),
                ..old(self)@
            }),
    {
        match lookup {
            Ok(key) => {
                self.languagetool_api_key = Some(key);
            },
            Err(_) => {},
        }
    }

    /// Takes the outcome of the lookup of the translator's key into the
    /// settings.
    pub fn apply_deepl_key(&mut self, lookup: Result<String, String>)
        ensures
            final(self)@ == (LanguageConfigView {
                deepl_api_key: spec_key_after(
                    old(self)@.deepl_api_key,
                    crate::credentials::spec_text_or_message(lookup),
                ),
                ..old(self)@
            }),
    {
        match lookup {
            Ok(key) => {
                self.deepl_api_key = Some(key);
            },
            Err(_) => {},
        }
    }

    /// Fetches the two keys from the secret store. The key of the grammar
    /// checker is looked up under the account name, where one is set and
    /// not empty; the key of the translator under `app_id`, the identifier
    /// of the installation. A key that cannot be read stays as it was, so
    /// each key is afterwards what it was before or a key that was found.
    /// Nothing but the two keys changes, and the call always succeeds.
    pub fn load_credentials(&mut self, app_id: &str) -> (loaded: Result<(), String>)
        ensures
            loaded is Ok,
            final(self)@ == (LanguageConfigView {
                languagetool_api_key: final(self)@.languagetool_api_key,
                deepl_api_key: final(self)@.deepl_api_key,
                ..old(self)@
            }),
            !(old(self)@.languagetool_username matches Some(name) && name.len() > 0)
                ==> final(self)@.languagetool_api_key == old(self)@.languagetool_api_key,
            spec_kept_or_found(
                old(self)@.languagetool_api_key,
                final(self)@.languagetool_api_key,
            ),
            spec_kept_or_found(old(self)@.deepl_api_key, final(self)@.deepl_api_key),
    {
        let name = match &self.languagetool_username {
            Some(username) => {
                if !username.as_str().is_empty() {
                    Some(username.clone())
                } else {
                    None
                }
            },
            None => None,
        };
        if let Some(username) = name {
            let lookup = get_languagetool_credential(username);
            self.apply_languagetool_key(lookup);
        }
        let lookup = get_deepl_credential(app_id);
        self.apply_deepl_key(lookup);
        Ok(())
    }
}

/// Whether a text is given and not empty.
pub open spec fn spec_is_given(text: Option<Seq<char>>) -> bool {
    text matches Some(t) && t.len() > 0
}

/// `new` where it is given, else `old`.
pub open spec fn spec_or_keep<T>(new: Option<T>, old: T) -> T {
    match new {
        Some(value) => value,
        None => old,
    }
}

/// Takes new settings of the grammar checker. An account name that is
/// given replaces the old one; where a key is given too, and neither is
/// empty, the key is filed in the secret store under that name. An address
/// that is given replaces the old one, unless filing the key failed. The
/// keys held in the settings do not change.
pub fn save_language_tool_config(
    config: &mut LanguageConfig,
    api_key: Option<String>,
    username: Option<String>,
    endpoint: Option<String>,
) -> (saved: Result<(), String>)
    ensures
        final(config)@.languagetool_api_key == old(config)@.languagetool_api_key,
        final(config)@.deepl_api_key == old(config)@.deepl_api_key,
        final(config)@.deepl_endpoint == old(config)@.deepl_endpoint,
        final(config)@.languagetool_username == match username {
            Some(name) => Some(name@),
            None => old(config)@.languagetool_username,
        },
        saved is Ok ==> final(config)@.languagetool_endpoint == spec_or_keep(
            spec_option_text(endpoint),
            old(config)@.languagetool_endpoint,
        ),
        !(spec_is_given(spec_option_text(api_key)) && spec_is_given(spec_option_text(username)))
            ==> saved is Ok,
        saved matches Err(message) ==> spec_is_store_failure(message@)
            && final(config)@.languagetool_endpoint == old(config)@.languagetool_endpoint,
{
    if let Some(user) = username {
        config.languagetool_username = Some(user.clone());
        if let Some(key) = api_key {
            if !key.as_str().is_empty() && !user.as_str().is_empty() {
                match store_languagetool_credential(user, key) {
                    Ok(_) => {},
                    Err(message) => {
                        return Err(message);
                    },
                }
            }
        }
    }
    if let Some(url) = endpoint {
        config.languagetool_endpoint = url;
    }
    Ok(())
}

/// Takes new settings of the translator. A key that is given and not empty
/// is filed in the secret store under `app_id`, the identifier of the
/// installation. An address that is given replaces the old one, unless
/// filing the key failed. Nothing else changes.
pub fn save_deepl_config(
    config: &mut LanguageConfig,
    app_id: &str,
    api_key: Option<String>,
    endpoint: Option<String>,
) -> (saved: Result<(), String>)
    ensures
        final(config)@ == (LanguageConfigView {
            deepl_endpoint: final(config)@.deepl_endpoint,
            ..old(config)@
        }),
        saved is Ok ==> final(config)@.deepl_endpoint == spec_or_keep(
            spec_option_text(endpoint),
            old(config)@.deepl_endpoint,
        ),
        !spec_is_given(spec_option_text(api_key)) ==> saved is Ok,
        saved matches Err(message) ==> spec_is_store_failure(message@) && final(config)@
            == old(config)@,
{
    if let Some(key) = api_key {
        if !key.as_str().is_empty() {
            match store_deepl_credential(app_id, key) {
                Ok(_) => {},
                Err(message) => {
                    return Err(message);
                },
            }
        }
    }
    if let Some(url) = endpoint {
        config.deepl_endpoint = url;
    }
    Ok(())
}

} // verus!
