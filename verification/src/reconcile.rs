//! Reconciling one note: deciding from the two modification times whether
//! the note is uploaded, downloaded or left alone, and carrying that
//! decision out step by step.
//!
//! The reconciler performs no transfer itself. It is a machine that names
//! the next thing to do ([`ReconcileAction`]) and is told how it went
//! ([`ReconcileEvent`]). Whoever drives it probes the server, reads and
//! writes the local file and moves the content.

use crate::client::NextcloudClient;
use crate::error::ErrorKind;
use crate::error::SyncError;
use crate::error::SyncErrorView;
use crate::types::NoteStatus;
use vstd::prelude::*;

verus! {

/// Two modification times that differ by no more than this many seconds
/// count as equal.
pub const TIME_TOLERANCE_SECS: u64 = 2;

/// What is done with a note.
#[derive(Clone, Copy, Debug, PartialEq, Eq, Structural)]
pub enum Transfer {
    /// Both sides agree, or neither exists.
    Nothing,
    /// The local copy goes to the server.
    Upload,
    /// The remote copy comes to the local disk.
    Download,
}

/// The decision table. A side that is missing loses to the side that
/// exists; where both exist, the side that is newer by more than the
/// tolerance wins.
pub open spec fn spec_decide(
    local_exists: bool,
    local_modified: u64,
    remote_modified: Option<u64>,
) -> Transfer {
    match remote_modified {
        None => if local_exists {
            Transfer::Upload
        } else {
            Transfer::Nothing
        },
        Some(remote) => if !local_exists {
            Transfer::Download
        } else if local_modified - remote > TIME_TOLERANCE_SECS {
            Transfer::Upload
        } else if remote - local_modified > TIME_TOLERANCE_SECS {
            Transfer::Download
        } else {
            Transfer::Nothing
        },
    }
}

/// Decides what is done with a note.
pub fn decide(local_exists: bool, local_modified: u64, remote_modified: Option<u64>) -> (transfer:
    Transfer)
    ensures
        transfer == spec_decide(local_exists, local_modified, remote_modified),
{
    match remote_modified {
        None => if local_exists {
            Transfer::Upload
        } else {
            Transfer::Nothing
        },
        Some(remote) => if !local_exists {
            Transfer::Download
        } else if local_modified > remote && local_modified - remote > TIME_TOLERANCE_SECS {
            Transfer::Upload
        } else if remote > local_modified && remote - local_modified > TIME_TOLERANCE_SECS {
            Transfer::Download
        } else {
            Transfer::Nothing
        },
    }
}

/// What the file system says about the age of the local copy.
#[derive(Clone, Copy, Debug, PartialEq, Eq, Structural)]
pub enum LocalStat {
    /// The file's metadata cannot be read.
    Unavailable,
    /// The file was last modified at this many seconds since the epoch.
    Modified(u64),
    /// The metadata holds no usable modification time; `now` is the
    /// current time in seconds since the epoch.
    Undated { now: u64 },
}

/// The modification time that a pass works with: zero where the metadata
/// cannot be read, the current time where it holds no usable time.
pub open spec fn spec_local_modified(stat: LocalStat) -> u64 {
    match stat {
        LocalStat::Unavailable => 0,
        LocalStat::Modified(seconds) => seconds,
        LocalStat::Undated { now } => now,
    }
}

/// Computes the modification time that a pass works with.
pub fn local_modified(stat: LocalStat) -> (seconds: u64)
    ensures
        seconds == spec_local_modified(stat),
{
    match stat {
        LocalStat::Unavailable => 0,
        LocalStat::Modified(seconds) => seconds,
        LocalStat::Undated { now } => now,
    }
}

/// How reconciling one note ended.
#[derive(Debug)]
pub struct Outcome {
    /// The note's status. `synced` is false whenever anything failed.
    pub status: NoteStatus,
    /// The local file could not be read or written.
    pub error: Option<SyncError>,
}

/// The mathematical content of an [`Outcome`].
pub struct OutcomeView {
    pub status: NoteStatus,
    pub error: Option<SyncErrorView>,
}

impl View for Outcome {
    type V = OutcomeView;

    open spec fn view(&self) -> OutcomeView {
        OutcomeView {
            status: self.status,
            error: match self.error {
                Some(e) => Some(e@),
                None => None,
            },
        }
    }
}

impl Outcome {
    /// The outcome as a result: the status, or the file-system error that
    /// stopped the note.
    pub fn into_result(self) -> (result: Result<NoteStatus, SyncError>)
        ensures
            match result {
                Ok(status) => self@.error is None && status == self@.status,
                Err(e) => self@.error == Some(e@),
            },
    {
        match self.error {
            Some(e) => Err(e),
            None => Ok(self.status),
        }
    }
}

/// What the driver reports back to the reconciler.
#[derive(Debug)]
pub enum ReconcileEvent {
    /// The answer to the metadata probe: the remote modification time,
    /// `None` where the note is absent, or why the probe failed.
    Metadata(Result<Option<u64>, SyncError>),
    /// The answer to the header probe, in the same form.
    Header(Result<Option<u64>, SyncError>),
    /// The age of the local file.
    Stat(LocalStat),
    /// The downloaded content, or why the download failed.
    Downloaded(Result<String, SyncError>),
    /// The content of the local file, or why it could not be read.
    LocalRead(Result<String, String>),
    /// Whether the local file was written, or why not.
    LocalWritten(Result<(), String>),
    /// Whether the upload succeeded, or why not.
    Uploaded(Result<(), SyncError>),
}

/// The mathematical content of a [`ReconcileEvent`].
pub enum ReconcileEventView {
    Metadata(Result<Option<u64>, SyncErrorView>),
    Header(Result<Option<u64>, SyncErrorView>),
    Stat(LocalStat),
    Downloaded(Result<Seq<char>, SyncErrorView>),
    LocalRead(Result<Seq<char>, Seq<char>>),
    LocalWritten(Result<(), Seq<char>>),
    Uploaded(Result<(), SyncErrorView>),
}

impl View for ReconcileEvent {
    type V = ReconcileEventView;

    open spec fn view(&self) -> ReconcileEventView {
        match self {
            ReconcileEvent::Metadata(Ok(t)) => ReconcileEventView::Metadata(Ok(*t)),
            ReconcileEvent::Metadata(Err(e)) => ReconcileEventView::Metadata(Err(e@)),
            ReconcileEvent::Header(Ok(t)) => ReconcileEventView::Header(Ok(*t)),
            ReconcileEvent::Header(Err(e)) => ReconcileEventView::Header(Err(e@)),
            ReconcileEvent::Stat(stat) => ReconcileEventView::Stat(*stat),
            ReconcileEvent::Downloaded(Ok(c)) => ReconcileEventView::Downloaded(Ok(c@)),
            ReconcileEvent::Downloaded(Err(e)) => ReconcileEventView::Downloaded(Err(e@)),
            ReconcileEvent::LocalRead(Ok(c)) => ReconcileEventView::LocalRead(Ok(c@)),
            ReconcileEvent::LocalRead(Err(t)) => ReconcileEventView::LocalRead(Err(t@)),
            ReconcileEvent::LocalWritten(Ok(_)) => ReconcileEventView::LocalWritten(Ok(())),
            ReconcileEvent::LocalWritten(Err(t)) => ReconcileEventView::LocalWritten(Err(t@)),
            ReconcileEvent::Uploaded(Ok(_)) => ReconcileEventView::Uploaded(Ok(())),
            ReconcileEvent::Uploaded(Err(e)) => ReconcileEventView::Uploaded(Err(e@)),
        }
    }
}

/// What the reconciler asks the driver to do next.
#[derive(Debug)]
pub enum ReconcileAction {
    /// Ask the server for the note's properties.
    ProbeMetadata,
    /// Ask the server for the note's headers only.
    ProbeHeader,
    /// Read the age of the local file.
    StatLocal,
    /// Fetch the remote content.
    Download,
    /// Read the local content.
    ReadLocal,
    /// Write this content to the local file.
    WriteLocal(String),
    /// Send this content to the server.
    Upload(String),
    /// The note is done.
    Finish(Outcome),
    /// The event answers nothing that was asked; the machine did not move.
    Unexpected,
}

/// The mathematical content of a [`ReconcileAction`].
pub enum ReconcileActionView {
    ProbeMetadata,
    ProbeHeader,
    StatLocal,
    Download,
    ReadLocal,
    WriteLocal(Seq<char>),
    Upload(Seq<char>),
    Finish(OutcomeView),
    Unexpected,
}

impl View for ReconcileAction {
    type V = ReconcileActionView;

    open spec fn view(&self) -> ReconcileActionView {
        match self {
            ReconcileAction::ProbeMetadata => ReconcileActionView::ProbeMetadata,
            ReconcileAction::ProbeHeader => ReconcileActionView::ProbeHeader,
            ReconcileAction::StatLocal => ReconcileActionView::StatLocal,
            ReconcileAction::Download => ReconcileActionView::Download,
            ReconcileAction::ReadLocal => ReconcileActionView::ReadLocal,
            ReconcileAction::WriteLocal(c) => ReconcileActionView::WriteLocal(c@),
            ReconcileAction::Upload(c) => ReconcileActionView::Upload(c@),
            ReconcileAction::Finish(outcome) => ReconcileActionView::Finish(outcome@),
            ReconcileAction::Unexpected => ReconcileActionView::Unexpected,
        }
    }
}

/// Where the reconciler stands.
#[derive(Debug)]
enum Phase {
    AwaitMetadata,
    AwaitHeader,
    AwaitStat { remote: Option<u64> },
    AwaitDownload { status: NoteStatus, compare: bool },
    AwaitCompareRead { status: NoteStatus, content: String },
    AwaitWrite { status: NoteStatus },
    AwaitUploadRead { status: NoteStatus },
    AwaitUpload { status: NoteStatus },
    Finished,
}

/// Where a reconciler stands, as a mathematical value.
pub enum PhaseView {
    /// The metadata probe is under way.
    AwaitMetadata,
    /// The metadata probe failed; the header probe is under way.
    AwaitHeader,
    /// The remote time is known; the local file is being inspected.
    AwaitStat { remote: Option<u64> },
    /// The download is under way. `compare` says whether the content is
    /// held against the local copy before it is written.
    AwaitDownload { status: NoteStatus, compare: bool },
    /// The download is here; the local copy is being read to compare.
    AwaitCompareRead { status: NoteStatus, content: Seq<char> },
    /// The local file is being written.
    AwaitWrite { status: NoteStatus },
    /// The local copy is being read for the upload.
    AwaitUploadRead { status: NoteStatus },
    /// The upload is under way.
    AwaitUpload { status: NoteStatus },
    /// The note is done.
    Finished,
}

/// The machine that reconciles one note.
#[derive(Debug)]
pub struct Reconciler {
    tab_index: usize,
    local_exists: bool,
    phase: Phase,
}

/// The mathematical content of a [`Reconciler`].
pub struct ReconcilerView {
    pub tab_index: usize,
    pub local_exists: bool,
    pub phase: PhaseView,
}

impl View for Reconciler {
    type V = ReconcilerView;

    closed spec fn view(&self) -> ReconcilerView {
        ReconcilerView {
            tab_index: self.tab_index,
            local_exists: self.local_exists,
            phase: match self.phase {
                Phase::AwaitMetadata => PhaseView::AwaitMetadata,
                Phase::AwaitHeader => PhaseView::AwaitHeader,
                Phase::AwaitStat { remote } => PhaseView::AwaitStat { remote },
                Phase::AwaitDownload { status, compare } => PhaseView::AwaitDownload {
                    status,
                    compare,
                },
                Phase::AwaitCompareRead { status, content } => PhaseView::AwaitCompareRead {
                    status,
                    content: content@,
                },
                Phase::AwaitWrite { status } => PhaseView::AwaitWrite { status },
                Phase::AwaitUploadRead { status } => PhaseView::AwaitUploadRead { status },
                Phase::AwaitUpload { status } => PhaseView::AwaitUpload { status },
                Phase::Finished => PhaseView::Finished,
            },
        }
    }
}

/// The machine as it starts on note `tab_index`.
pub open spec fn spec_start(tab_index: usize, local_exists: bool) -> ReconcilerView {
    ReconcilerView { tab_index, local_exists, phase: PhaseView::AwaitMetadata }
}

/// The machine comes to rest with this status and this error.
pub open spec fn spec_finish(
    m: ReconcilerView,
    status: NoteStatus,
    synced: bool,
    error: Option<SyncErrorView>,
) -> (ReconcilerView, ReconcileActionView) {
    (
        ReconcilerView { phase: PhaseView::Finished, ..m },
        ReconcileActionView::Finish(
            OutcomeView { status: NoteStatus { synced, ..status }, error },
        ),
    )
}

/// What follows once both modification times are known.
pub open spec fn spec_after_times(m: ReconcilerView, local_modified: u64, remote: Option<u64>) -> (
    ReconcilerView,
    ReconcileActionView,
) {
    let status = NoteStatus {
        tab_index: m.tab_index,
        local_modified,
        remote_modified: remote,
        synced: false,
        conflict: false,
    };
    match spec_decide(m.local_exists, local_modified, remote) {
        Transfer::Nothing => spec_finish(m, status, true, None),
        Transfer::Download => (
            ReconcilerView {
                phase: PhaseView::AwaitDownload { status, compare: m.local_exists },
                ..m
            },
            ReconcileActionView::Download,
        ),
        Transfer::Upload => (
            ReconcilerView { phase: PhaseView::AwaitUploadRead { status }, ..m },
            ReconcileActionView::ReadLocal,
        ),
    }
}

/// What follows once the remote modification time is known. A note without
/// a local copy has local time zero.
pub open spec fn spec_after_remote(m: ReconcilerView, remote: Option<u64>) -> (
    ReconcilerView,
    ReconcileActionView,
) {
    if m.local_exists {
        (ReconcilerView { phase: PhaseView::AwaitStat { remote }, ..m }, ReconcileActionView::StatLocal)
    } else {
        spec_after_times(m, 0, remote)
    }
}

/// The error reported when the local copy cannot be read for an upload.
pub open spec fn spec_read_failure(detail: Seq<char>) -> SyncErrorView {
    SyncErrorView { kind: ErrorKind::FileSystem, message: "Failed to read local note: "@ + detail }
}

/// The error reported when the downloaded content cannot be written.
pub open spec fn spec_write_failure(detail: Seq<char>) -> SyncErrorView {
    SyncErrorView {
        kind: ErrorKind::FileSystem,
        message: "Failed to save downloaded note: "@ + detail,
    }
}

/// One move of the machine: the state after `event`, and what to do next.
///
/// A failed metadata probe is followed by the header probe; where both
/// fail the note counts as absent on the server. A failed transfer ends the
/// note unsynced. Downloaded content replaces an existing local copy only
/// where the two differ; a local copy that cannot be read counts as empty.
/// An event that answers nothing that was asked leaves the machine as it is.
pub open spec fn spec_step(m: ReconcilerView, event: ReconcileEventView) -> (
    ReconcilerView,
    ReconcileActionView,
) {
    match (m.phase, event) {
        (PhaseView::AwaitMetadata, ReconcileEventView::Metadata(Ok(remote))) => spec_after_remote(
            m,
            remote,
        ),
        (PhaseView::AwaitMetadata, ReconcileEventView::Metadata(Err(_))) => (
            ReconcilerView { phase: PhaseView::AwaitHeader, ..m },
            ReconcileActionView::ProbeHeader,
        ),
        (PhaseView::AwaitHeader, ReconcileEventView::Header(Ok(remote))) => spec_after_remote(
            m,
            remote,
        ),
        (PhaseView::AwaitHeader, ReconcileEventView::Header(Err(_))) => spec_after_remote(m, None),
        (PhaseView::AwaitStat { remote }, ReconcileEventView::Stat(stat)) => spec_after_times(
            m,
            spec_local_modified(stat),
            remote,
        ),
        (
            PhaseView::AwaitDownload { status, compare },
            ReconcileEventView::Downloaded(Ok(content)),
        ) => if compare {
            (
                ReconcilerView { phase: PhaseView::AwaitCompareRead { status, content }, ..m },
                ReconcileActionView::ReadLocal,
            )
        } else {
            (
                ReconcilerView { phase: PhaseView::AwaitWrite { status }, ..m },
                ReconcileActionView::WriteLocal(content),
            )
        },
        (PhaseView::AwaitDownload { status, compare }, ReconcileEventView::Downloaded(Err(_))) => {
            spec_finish(m, status, false, None)
        },
        (PhaseView::AwaitCompareRead { status, content }, ReconcileEventView::LocalRead(read)) => {
            let local = match read {
                Ok(text) => text,
                Err(_) => Seq::<char>::empty(),
            };
            if content != local {
                (
                    ReconcilerView { phase: PhaseView::AwaitWrite { status }, ..m },
                    ReconcileActionView::WriteLocal(content),
                )
            } else {
                spec_finish(m, status, true, None)
            }
        },
        (PhaseView::AwaitWrite { status }, ReconcileEventView::LocalWritten(Ok(_))) => spec_finish(
            m,
            status,
            true,
            None,
        ),
        (PhaseView::AwaitWrite { status }, ReconcileEventView::LocalWritten(Err(detail))) => {
            spec_finish(m, status, false, Some(spec_write_failure(detail)))
        },
        (PhaseView::AwaitUploadRead { status }, ReconcileEventView::LocalRead(Ok(content))) => (
            ReconcilerView { phase: PhaseView::AwaitUpload { status }, ..m },
            ReconcileActionView::Upload(content),
        ),
        (PhaseView::AwaitUploadRead { status }, ReconcileEventView::LocalRead(Err(detail))) => {
            spec_finish(m, status, false, Some(spec_read_failure(detail)))
        },
        (PhaseView::AwaitUpload { status }, ReconcileEventView::Uploaded(Ok(_))) => spec_finish(
            m,
            status,
            true,
            None,
        ),
        (PhaseView::AwaitUpload { status }, ReconcileEventView::Uploaded(Err(_))) => spec_finish(
            m,
            status,
            false,
            None,
        ),
        _ => (m, ReconcileActionView::Unexpected),
    }
}

impl Reconciler {
    /// Starts on note `tab_index`. `local_exists` says whether the note has
    /// a local copy. The first thing to do is the metadata probe.
    pub fn start(tab_index: usize, local_exists: bool) -> (begun: (Reconciler, ReconcileAction))
        ensures
            begun.0@ == spec_start(tab_index, local_exists),
            begun.1@ == ReconcileActionView::ProbeMetadata,
    {
        (
            Reconciler { tab_index, local_exists, phase: Phase::AwaitMetadata },
            ReconcileAction::ProbeMetadata,
        )
    }

    /// Tells whether the note is done.
    pub fn is_finished(&self) -> (finished: bool)
        ensures
            finished == (self@.phase is Finished),
    {
        match self.phase {
            Phase::Finished => true,
            _ => false,
        }
    }

    fn finish(self, status: NoteStatus, synced: bool, error: Option<SyncError>) -> (moved: (
        Reconciler,
        ReconcileAction,
    ))
        ensures
            (moved.0@, moved.1@) == spec_finish(
                self@,
                status,
                synced,
                match error {
                    Some(e) => Some(e@),
                    None => None,
                },
            ),
    {
        let outcome = Outcome {
            status: NoteStatus {
                tab_index: status.tab_index,
                local_modified: status.local_modified,
                remote_modified: status.remote_modified,
                synced,
                conflict: status.conflict,
            },
            error,
        };
        (
            Reconciler {
                tab_index: self.tab_index,
                local_exists: self.local_exists,
                phase: Phase::Finished,
            },
            ReconcileAction::Finish(outcome),
        )
    }

    fn after_times(self, local_modified: u64, remote: Option<u64>) -> (moved: (
        Reconciler,
        ReconcileAction,
    ))
        ensures
            (moved.0@, moved.1@) == spec_after_times(self@, local_modified, remote),
    {
        let status = NoteStatus {
            tab_index: self.tab_index,
            local_modified,
            remote_modified: remote,
            synced: false,
            conflict: false,
        };
        match decide(self.local_exists, local_modified, remote) {
            Transfer::Nothing => self.finish(status, true, None),
            Transfer::Download => (
                Reconciler {
                    tab_index: self.tab_index,
                    local_exists: self.local_exists,
                    phase: Phase::AwaitDownload { status, compare: self.local_exists },
                },
                ReconcileAction::Download,
            ),
            Transfer::Upload => (
                Reconciler {
                    tab_index: self.tab_index,
                    local_exists: self.local_exists,
                    phase: Phase::AwaitUploadRead { status },
                },
                ReconcileAction::ReadLocal,
            ),
        }
    }

    fn after_remote(self, remote: Option<u64>) -> (moved: (Reconciler, ReconcileAction))
        ensures
            (moved.0@, moved.1@) == spec_after_remote(self@, remote),
    {
        if self.local_exists {
            (
                Reconciler {
                    tab_index: self.tab_index,
                    local_exists: self.local_exists,
                    phase: Phase::AwaitStat { remote },
                },
                ReconcileAction::StatLocal,
            )
        } else {
            self.after_times(0, remote)
        }
    }

    /// Makes one move: takes the answer to the last action and returns the
    /// machine in its new state together with the next action.
    pub fn step(self, event: ReconcileEvent) -> (moved: (Reconciler, ReconcileAction))
        ensures
            (moved.0@, moved.1@) == spec_step(self@, event@),
    {
        let tab_index = self.tab_index;
        let local_exists = self.local_exists;
        match (self.phase, event) {
            (Phase::AwaitMetadata, ReconcileEvent::Metadata(Ok(remote))) => {
                Reconciler { tab_index, local_exists, phase: Phase::AwaitMetadata }.after_remote(
                    remote,
                )
            },
            (Phase::AwaitMetadata, ReconcileEvent::Metadata(Err(_))) => (
                Reconciler { tab_index, local_exists, phase: Phase::AwaitHeader },
                ReconcileAction::ProbeHeader,
            ),
            (Phase::AwaitHeader, ReconcileEvent::Header(Ok(remote))) => {
                Reconciler { tab_index, local_exists, phase: Phase::AwaitHeader }.after_remote(
                    remote,
                )
            },
            (Phase::AwaitHeader, ReconcileEvent::Header(Err(_))) => {
                Reconciler { tab_index, local_exists, phase: Phase::AwaitHeader }.after_remote(None)
            },
            (Phase::AwaitStat { remote }, ReconcileEvent::Stat(stat)) => {
                Reconciler {
                    tab_index,
                    local_exists,
                    phase: Phase::AwaitStat { remote },
                }.after_times(local_modified(stat), remote)
            },
            (Phase::AwaitDownload { status, compare }, ReconcileEvent::Downloaded(Ok(content))) => {
                if compare {
                    (
                        Reconciler {
                            tab_index,
                            local_exists,
                            phase: Phase::AwaitCompareRead { status, content },
                        },
                        ReconcileAction::ReadLocal,
                    )
                } else {
                    (
                        Reconciler { tab_index, local_exists, phase: Phase::AwaitWrite { status } },
                        ReconcileAction::WriteLocal(content),
                    )
                }
            },
            (Phase::AwaitDownload { status, compare }, ReconcileEvent::Downloaded(Err(_))) => {
                Reconciler { tab_index, local_exists, phase: Phase::Finished }.finish(
                    status,
                    false,
                    None,
                )
            },
            (Phase::AwaitCompareRead { status, content }, ReconcileEvent::LocalRead(read)) => {
                let local = match read {
                    Ok(text) => text,
                    Err(_) => String::new(),
                };
                if content != local {
                    (
                        Reconciler { tab_index, local_exists, phase: Phase::AwaitWrite { status } },
                        ReconcileAction::WriteLocal(content),
                    )
                } else {
                    Reconciler { tab_index, local_exists, phase: Phase::Finished }.finish(
                        status,
                        true,
                        None,
                    )
                }
            },
            (Phase::AwaitWrite { status }, ReconcileEvent::LocalWritten(Ok(_))) => {
                Reconciler { tab_index, local_exists, phase: Phase::Finished }.finish(
                    status,
                    true,
                    None,
                )
            },
            (Phase::AwaitWrite { status }, ReconcileEvent::LocalWritten(Err(detail))) => {
                let error = SyncError::with_detail(
                    ErrorKind::FileSystem,
                    "Failed to save downloaded note: ",
                    detail.as_str(),
                );
                Reconciler { tab_index, local_exists, phase: Phase::Finished }.finish(
                    status,
                    false,
                    Some(error),
                )
            },
            (Phase::AwaitUploadRead { status }, ReconcileEvent::LocalRead(Ok(content))) => (
                Reconciler { tab_index, local_exists, phase: Phase::AwaitUpload { status } },
                ReconcileAction::Upload(content),
            ),
            (Phase::AwaitUploadRead { status }, ReconcileEvent::LocalRead(Err(detail))) => {
                let error = SyncError::with_detail(
                    ErrorKind::FileSystem,
                    "Failed to read local note: ",
                    detail.as_str(),
                );
                Reconciler { tab_index, local_exists, phase: Phase::Finished }.finish(
                    status,
                    false,
                    Some(error),
                )
            },
            (Phase::AwaitUpload { status }, ReconcileEvent::Uploaded(Ok(_))) => {
                Reconciler { tab_index, local_exists, phase: Phase::Finished }.finish(
                    status,
                    true,
                    None,
                )
            },
            (Phase::AwaitUpload { status }, ReconcileEvent::Uploaded(Err(_))) => {
                Reconciler { tab_index, local_exists, phase: Phase::Finished }.finish(
                    status,
                    false,
                    None,
                )
            },
            (phase, _) => (Reconciler { tab_index, local_exists, phase }, ReconcileAction::Unexpected),
        }
    }
}

impl NextcloudClient {
    /// Begins to reconcile note `tab_index` against this client's server.
    /// `local_exists` says whether the note has a local copy. The machine
    /// that comes back is driven with [`Reconciler::step`].
    pub fn sync_note(&self, tab_index: usize, local_exists: bool) -> (begun: (
        Reconciler,
        ReconcileAction,
    ))
        ensures
            begun.0@ == spec_start(tab_index, local_exists),
            begun.1@ == ReconcileActionView::ProbeMetadata,
    {
        Reconciler::start(tab_index, local_exists)
    }
}

} // verus!
