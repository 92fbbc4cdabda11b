//! The data that a synchronization pass reads and produces.

use crate::credentials::get_nextcloud_credential;
use crate::credentials::is_missing;
use crate::credentials::spec_is_missing;
use crate::credentials::spec_is_retrieve_failure;
use crate::credentials::spec_is_store_failure;
use crate::credentials::spec_text_or_message;
use crate::credentials::spec_unit_result;
use crate::credentials::store_nextcloud_credential;
use std::collections::HashMap;
use vstd::prelude::*;
use vstd::string::StringExecFns;

verus! {

/// How many notes there are. Their indices run from zero up to this number.
pub const NOTE_COUNT: usize = 7;

/// The state of one note after it was reconciled.
#[derive(Clone, Copy, Debug, PartialEq, Eq, Structural)]
pub struct NoteStatus {
    /// Which note this is.
    pub tab_index: usize,
    /// Seconds since the epoch at which the local copy was last modified;
    /// zero when there is no local copy.
    pub local_modified: u64,
    /// Seconds since the epoch at which the remote copy was last modified;
    /// `None` when there is no remote copy.
    pub remote_modified: Option<u64>,
    /// Whether both sides hold the same note after the pass.
    pub synced: bool,
    /// Whether both sides changed. Timestamps alone decide a pass, so this
    /// is never set.
    pub conflict: bool,
}

/// The report of one pass over all notes.
#[derive(Debug)]
pub struct SyncStatus {
    /// When the pass ended, in seconds since the epoch.
    pub last_sync: Option<u64>,
    /// Whether a pass is under way.
    pub syncing: bool,
    /// Why the pass failed, if it did.
    pub error: Option<String>,
    /// The status of each note, by its index.
    pub notes_status: HashMap<usize, NoteStatus>,
}

/// The mathematical content of a [`SyncStatus`].
pub struct SyncStatusView {
    pub last_sync: Option<u64>,
    pub syncing: bool,
    pub error: Option<Seq<char>>,
    pub notes_status: Map<usize, NoteStatus>,
}

impl View for SyncStatus {
    type V = SyncStatusView;

    open spec fn view(&self) -> SyncStatusView {
        SyncStatusView {
            last_sync: self.last_sync,
            syncing: self.syncing,
            error: match self.error {
                Some(text) => Some(text@),
                None => None,
            },
            notes_status: self.notes_status@,
        }
    }
}

impl SyncStatus {
    /// The report shown before any pass has run: only the time of the last
    /// pass is known.
    pub fn idle(last_sync: Option<u64>) -> (status: SyncStatus)
        ensures
            status@ == (SyncStatusView {
                last_sync,
                syncing: false,
                error: None,
                notes_status: Map::empty(),
            }),
    {
        SyncStatus { last_sync, syncing: false, error: None, notes_status: HashMap::new() }
    }
}

/// The settings of the remote endpoint and of the scheduler.
#[derive(Clone, Debug)]
pub struct NextcloudConfig {
    /// Base address of the server.
    pub server_url: String,
    /// Account name.
    pub username: String,
    /// Account secret. It lives in the secret store, never in the settings
    /// file.
    pub password: String,
    /// Remote folder that holds the notes.
    pub sync_folder: String,
    /// When the last pass ended, in seconds since the epoch.
    pub last_sync: Option<u64>,
    /// Whether passes start on a timer.
    pub auto_sync: bool,
    /// Whether a pass starts when the program starts.
    pub sync_on_startup: bool,
    /// Minutes between two timed passes.
    pub sync_interval_minutes: u32,
    /// Whether the user interface shows the state of the pass.
    pub show_sync_status: bool,
}

/// The mathematical content of a [`NextcloudConfig`].
pub struct NextcloudConfigView {
    pub server_url: Seq<char>,
    pub username: Seq<char>,
    pub password: Seq<char>,
    pub sync_folder: Seq<char>,
    pub last_sync: Option<u64>,
    pub auto_sync: bool,
    pub sync_on_startup: bool,
    pub sync_interval_minutes: u32,
    pub show_sync_status: bool,
}

impl View for NextcloudConfig {
    type V = NextcloudConfigView;

    open spec fn view(&self) -> NextcloudConfigView {
        NextcloudConfigView {
            server_url: self.server_url@,
            username: self.username@,
            password: self.password@,
            sync_folder: self.sync_folder@,
            last_sync: self.last_sync,
            auto_sync: self.auto_sync,
            sync_on_startup: self.sync_on_startup,
            sync_interval_minutes: self.sync_interval_minutes,
            show_sync_status: self.show_sync_status,
        }
    }
}

/// The settings before the user has entered any.
pub open spec fn spec_default_config() -> NextcloudConfigView {
    NextcloudConfigView {
        server_url: Seq::empty(),
        username: Seq::empty(),
        password: Seq::empty(),
        sync_folder: "/jot"@,
        last_sync: None,
        auto_sync: false,
        sync_on_startup: false,
        sync_interval_minutes: 30,
        show_sync_status: true,
    }
}

impl Default for NextcloudConfig {
    fn default() -> (config: NextcloudConfig)
        ensures
            config@ == spec_default_config(),
    {
        NextcloudConfig {
            server_url: String::new(),
            username: String::new(),
            password: String::new(),
            sync_folder: String::from_str("/jot"),
            last_sync: None,
            auto_sync: false,
            sync_on_startup: false,
            sync_interval_minutes: 30,
            show_sync_status: true,
        }
    }
}

impl NextcloudConfig {
    /// Whether the settings name a server, an account and a secret.
    pub open spec fn spec_is_complete(&self) -> bool {
        self.server_url@.len() > 0 && self.username@.len() > 0 && self.password@.len() > 0
    }

    /// Tells whether the settings name a server, an account and a secret.
    pub fn is_complete(&self) -> (complete: bool)
        ensures
            complete == self.spec_is_complete(),
    {
        !self.server_url.as_str().is_empty() && !self.username.as_str().is_empty()
            && !self.password.as_str().is_empty()
    }

    /// What a lookup of the secret does to the settings. A secret that was
    /// found becomes the password; a lookup that only found nothing leaves
    /// the settings as they are; any other failure is handed on.
    pub open spec fn spec_apply_credential(
        config: NextcloudConfigView,
        lookup: Result<Seq<char>, Seq<char>>,
    ) -> (NextcloudConfigView, Result<(), Seq<char>>) {
        match lookup {
            Ok(password) => (NextcloudConfigView { password, ..config }, Ok(())),
            Err(message) => if spec_is_missing(message) {
                (config, Ok(()))
            } else {
                (config, Err(message))
            },
        }
    }

    /// Takes the outcome of a lookup of the secret into the settings.
    pub fn apply_credential(&mut self, lookup: Result<String, String>) -> (applied: Result<
        (),
        String,
    >)
        ensures
            (final(self)@, spec_unit_result(applied)) == Self::spec_apply_credential(
                old(self)@,
                spec_text_or_message(lookup),
            ),
    {
        match lookup {
            Ok(password) => {
                self.password = password;
                Ok(())
            },
            Err(message) => {
                if is_missing(message.as_str()) {
                    Ok(())
                } else {
                    Err(message)
                }
            },
        }
    }

    /// Fetches the password from the secret store. Settings without an
    /// account name are left alone and nothing is looked up. Whatever the
    /// store answers, nothing but the password changes, and a failure leaves
    /// the password as it was too. A failure is the failure of the lookup,
    /// handed on as the lookup reported it; one that only says that nothing
    /// is stored yet is no failure.
    pub fn load_credentials(&mut self) -> (loaded: Result<(), String>)
        ensures
            final(self)@ == (NextcloudConfigView { password: final(self)@.password, ..old(self)@ }),
            old(self)@.username.len() == 0 ==> loaded is Ok && final(self)@ == old(self)@,
            loaded matches Err(message) ==> final(self)@ == old(self)@ && !spec_is_missing(
                message@,
            ) && spec_is_retrieve_failure(message@),
    {
        if !self.username.as_str().is_empty() {
            let lookup = get_nextcloud_credential(self.username.clone());
            self.apply_credential(lookup)
        } else {
            Ok(())
        }
    }

    /// Files the password in the secret store. Settings without an account
    /// name or without a password file nothing and succeed.
    pub fn save_credentials(&self) -> (saved: Result<(), String>)
        ensures
            self@.username.len() == 0 || self@.password.len() == 0 ==> saved is Ok,
            saved matches Err(message) ==> spec_is_store_failure(message@),
    {
        if !self.username.as_str().is_empty() && !self.password.as_str().is_empty() {
            store_nextcloud_credential(self.username.clone(), self.password.clone())
        } else {
            Ok(())
        }
    }

    /// The copy of the settings that is written to the settings file: the
    /// same in every field, but with an empty secret.
    pub fn for_storage(&self) -> (stored: NextcloudConfig)
        ensures
            stored@ == (NextcloudConfigView { password: Seq::empty(), ..self@ }),
    {
        NextcloudConfig {
            server_url: self.server_url.clone(),
            username: self.username.clone(),
            password: String::new(),
            sync_folder: self.sync_folder.clone(),
            last_sync: self.last_sync,
            auto_sync: self.auto_sync,
            sync_on_startup: self.sync_on_startup,
            sync_interval_minutes: self.sync_interval_minutes,
            show_sync_status: self.show_sync_status,
        }
    }

    /// The settings with the time of the last pass replaced.
    pub fn with_last_sync(&self, last_sync: Option<u64>) -> (updated: NextcloudConfig)
        ensures
            updated@ == (NextcloudConfigView { last_sync, ..self@ }),
    {
        NextcloudConfig {
            server_url: self.server_url.clone(),
            username: self.username.clone(),
            password: self.password.clone(),
            sync_folder: self.sync_folder.clone(),
            last_sync,
            auto_sync: self.auto_sync,
            sync_on_startup: self.sync_on_startup,
            sync_interval_minutes: self.sync_interval_minutes,
            show_sync_status: self.show_sync_status,
        }
    }
}

} // verus!
