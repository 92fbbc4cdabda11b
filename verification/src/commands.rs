//! What the commands of the application say to the user: the report before
//! any pass, and the message for each stage at which a command can fail.

use crate::error::SyncError;
use crate::error::SyncErrorView;
use crate::types::NextcloudConfig;
use crate::types::NextcloudConfigView;
use crate::types::SyncStatus;
use crate::types::SyncStatusView;
use vstd::prelude::*;
use vstd::string::StringExecFns;

verus! {

/// The stage at which a command failed.
#[derive(Clone, Copy, Debug, PartialEq, Eq, Structural)]
pub enum Stage {
    /// The client could not be made from the settings.
    ClientSetup,
    /// The connection test could not be carried out.
    ConnectionTest,
    /// The sync folder is out of reach.
    Container,
    /// The pass was given up.
    Pass,
    /// The settings could not be written.
    ConfigSave,
}

/// Which pass a command asks for.
#[derive(Clone, Copy, Debug, PartialEq, Eq, Structural)]
pub enum PassKind {
    /// Reconcile every note in both directions.
    Sync,
    /// Upload every local note.
    Upload,
    /// Download every remote note.
    Download,
}

impl PassKind {
    /// The stage that is named where a pass of this kind is given up. An
    /// upload-all pass is given up only for want of the sync folder, and
    /// says so; a pass of another kind is reported as a failed pass.
    pub open spec fn spec_failure_stage(self) -> Stage {
        match self {
            PassKind::Upload => Stage::Container,
            _ => Stage::Pass,
        }
    }

    /// Tells the stage that is named where a pass of this kind is given up.
    pub fn failure_stage(self) -> (stage: Stage)
        ensures
            stage == self.spec_failure_stage(),
    {
        match self {
            PassKind::Upload => Stage::Container,
            _ => Stage::Pass,
        }
    }

    /// The word that the announcements of a pass of this kind carry: none
    /// for a pass in both directions.
    pub open spec fn spec_label(self) -> Option<Seq<char>> {
        match self {
            PassKind::Sync => None,
            PassKind::Upload => Some("upload"@),
            PassKind::Download => Some("download"@),
        }
    }

    /// Tells the word that the announcements of a pass of this kind carry.
    pub fn label(self) -> (label: Option<&'static str>)
        ensures
            match label {
                Some(word) => self.spec_label() == Some(word@),
                None => self.spec_label() is None,
            },
    {
        match self {
            PassKind::Sync => None,
            PassKind::Upload => Some("upload"),
            PassKind::Download => Some("download"),
        }
    }
}

/// The words with which the message for a stage begins.
pub open spec fn spec_stage_prefix(stage: Stage) -> Seq<char> {
    match stage {
        Stage::ClientSetup => "Failed to create Nextcloud client: "@,
        Stage::ConnectionTest => "Connection test failed: "@,
        Stage::Container => "Failed to ensure remote directory: "@,
        Stage::Pass => "Sync failed: "@,
        Stage::ConfigSave => "Failed to save config: "@,
    }
}

/// The message shown to the user for an error at a stage: the words of the
/// stage, then the description of the error.
pub open spec fn spec_failure_message(stage: Stage, error: SyncErrorView) -> Seq<char> {
    spec_stage_prefix(stage) + error.describe()
}

/// Builds the message shown to the user for an error at a stage.
pub fn failure_message(stage: Stage, error: &SyncError) -> (message: String)
    ensures
        message@ == spec_failure_message(stage, error@),
{
    let prefix = match stage {
        Stage::ClientSetup => "Failed to create Nextcloud client: ",
        Stage::ConnectionTest => "Connection test failed: ",
        Stage::Container => "Failed to ensure remote directory: ",
        Stage::Pass => "Sync failed: ",
        Stage::ConfigSave => "Failed to save config: ",
    };
    let mut message = String::from_str(prefix);
    message.append(error.describe().as_str());
    message
}

/// The message shown where the secret could not be filed.
pub fn credentials_failure_message(detail: &str) -> (message: String)
    ensures
        message@ == "Failed to save credentials: "@ + detail@,
{
    let mut message = String::from_str("Failed to save credentials: ");
    message.append(detail);
    message
}

/// The report shown before any pass has run: the time of the last pass as
/// the settings hold it, and no statuses.
pub fn get_sync_status(config: &NextcloudConfig) -> (status: SyncStatus)
    ensures
        status@ == (SyncStatusView {
            last_sync: config@.last_sync,
            syncing: false,
            error: None,
            notes_status: Map::empty(),
        }),
{
    SyncStatus::idle(config.last_sync)
}

/// The settings as they are written after a pass: with the time of the
/// pass as the time of the last sync, and with an empty password, since the
/// password lives in the secret store and never in the settings file.
pub fn config_after_pass(config: &NextcloudConfig, report: &SyncStatus) -> (updated:
    NextcloudConfig)
    ensures
        updated@ == (NextcloudConfigView {
            last_sync: report@.last_sync,
            password: Seq::empty(),
            ..config@
        }),
{
    config.with_last_sync(report.last_sync).for_storage()
}

/// The name of the event that announces the new content of note
/// `tab_index`.
pub open spec fn spec_note_updated_event(tab_index: usize) -> Seq<char> {
    "note-updated-"@ + crate::text::spec_decimal(tab_index as nat)
}

/// Builds the name of the event that announces the new content of a note.
pub fn note_updated_event(tab_index: usize) -> (name: String)
    ensures
        name@ == spec_note_updated_event(tab_index),
{
    let mut name = String::from_str("note-updated-");
    name.append(crate::text::decimal(tab_index as u64).as_str());
    name
}

} // verus!
