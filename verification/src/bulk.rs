//! Passes that move every note in one direction only: all local notes to
//! the server, or all remote notes to the local disk.
//!
//! Both are machines of the same kind as the orchestrator. Their reports
//! hold a status for each note that was moved, and for no other.

use crate::client::spec_container_probe_request;
use crate::client::spec_ensure_remote_directory;
use crate::client::spec_remote_directory_created;
use crate::client::ContainerStep;
use crate::client::ContainerStepView;
use crate::client::NextcloudClient;
use crate::error::SyncError;
use crate::error::SyncErrorView;
use crate::http::RemoteRequest;
use crate::http::RemoteRequestView;
use crate::http::Reply;
use crate::http::ReplyView;
use crate::orchestrator::spec_report;
use crate::reconcile::LocalStat;
use crate::types::NextcloudConfigView;
use crate::types::NoteStatus;
use crate::types::SyncStatus;
use crate::types::SyncStatusView;
use crate::types::NOTE_COUNT;
use std::collections::HashMap;
use vstd::prelude::*;

verus! {

/// What the driver reports back to a one-way pass.
#[derive(Debug)]
pub enum BulkEvent {
    /// How the backup of the local notes ended: where the archive lies, or
    /// why none was made.
    BackedUp(Result<String, String>),
    /// The reply to the probe of the sync folder.
    ContainerProbed(Reply),
    /// The reply to the creation of the sync folder.
    ContainerCreated(Reply),
    /// Whether the local file exists.
    LocalChecked(bool),
    /// The content of the local file, or why it could not be read.
    LocalRead(Result<String, String>),
    /// Whether the upload succeeded, or why not.
    Uploaded(Result<(), SyncError>),
    /// The answer to the metadata probe.
    Metadata(Result<Option<u64>, SyncError>),
    /// The answer to the header probe.
    Header(Result<Option<u64>, SyncError>),
    /// The age of the local file.
    Stat(LocalStat),
    /// The downloaded content, or why the download failed.
    Downloaded(Result<String, SyncError>),
    /// Whether the local file was written, or why not.
    LocalWritten(Result<(), String>),
    /// The new content was announced.
    Announced,
}

/// The mathematical content of a [`BulkEvent`].
pub enum BulkEventView {
    BackedUp(Result<Seq<char>, Seq<char>>),
    ContainerProbed(ReplyView),
    ContainerCreated(ReplyView),
    LocalChecked(bool),
    LocalRead(Result<Seq<char>, Seq<char>>),
    Uploaded(Result<(), SyncErrorView>),
    Metadata(Result<Option<u64>, SyncErrorView>),
    Header(Result<Option<u64>, SyncErrorView>),
    Stat(LocalStat),
    Downloaded(Result<Seq<char>, SyncErrorView>),
    LocalWritten(Result<(), Seq<char>>),
    Announced,
}

impl View for BulkEvent {
    type V = BulkEventView;

    open spec fn view(&self) -> BulkEventView {
        match self {
            BulkEvent::BackedUp(Ok(path)) => BulkEventView::BackedUp(Ok(path@)),
            BulkEvent::BackedUp(Err(reason)) => BulkEventView::BackedUp(Err(reason@)),
            BulkEvent::ContainerProbed(reply) => BulkEventView::ContainerProbed(reply@),
            BulkEvent::ContainerCreated(reply) => BulkEventView::ContainerCreated(reply@),
            BulkEvent::LocalChecked(exists) => BulkEventView::LocalChecked(*exists),
            BulkEvent::LocalRead(Ok(c)) => BulkEventView::LocalRead(Ok(c@)),
            BulkEvent::LocalRead(Err(t)) => BulkEventView::LocalRead(Err(t@)),
            BulkEvent::Uploaded(Ok(_)) => BulkEventView::Uploaded(Ok(())),
            BulkEvent::Uploaded(Err(e)) => BulkEventView::Uploaded(Err(e@)),
            BulkEvent::Metadata(Ok(t)) => BulkEventView::Metadata(Ok(*t)),
            BulkEvent::Metadata(Err(e)) => BulkEventView::Metadata(Err(e@)),
            BulkEvent::Header(Ok(t)) => BulkEventView::Header(Ok(*t)),
            BulkEvent::Header(Err(e)) => BulkEventView::Header(Err(e@)),
            BulkEvent::Stat(stat) => BulkEventView::Stat(*stat),
            BulkEvent::Downloaded(Ok(c)) => BulkEventView::Downloaded(Ok(c@)),
            BulkEvent::Downloaded(Err(e)) => BulkEventView::Downloaded(Err(e@)),
            BulkEvent::LocalWritten(Ok(_)) => BulkEventView::LocalWritten(Ok(())),
            BulkEvent::LocalWritten(Err(t)) => BulkEventView::LocalWritten(Err(t@)),
            BulkEvent::Announced => BulkEventView::Announced,
        }
    }
}

/// What a one-way pass asks the driver to do next. The number in an action
/// is the index of the note that it is about.
#[derive(Debug)]
pub enum BulkAction {
    /// Make a backup of the local notes.
    Backup,
    /// Send this request, which probes or creates the sync folder.
    Send(RemoteRequest),
    /// Look whether the local file exists.
    CheckLocal(usize),
    /// Read the local content.
    ReadLocal(usize),
    /// Send this content to the server.
    Upload(usize, String),
    /// Ask the server for the note's properties.
    ProbeMetadata(usize),
    /// Ask the server for the note's headers only.
    ProbeHeader(usize),
    /// Read the age of the local file.
    StatLocal(usize),
    /// Fetch the remote content.
    Download(usize),
    /// Write this content to the local file.
    WriteLocal(usize, String),
    /// Tell the user interface that the note now has this content.
    Announce(usize, String),
    /// The pass is over: this is its report.
    Finish(SyncStatus),
    /// The pass is given up: the sync folder is out of reach.
    Abort(SyncError),
    /// The event answers nothing that was asked; the machine did not move.
    Unexpected,
}

/// The mathematical content of a [`BulkAction`].
pub enum BulkActionView {
    Backup,
    Send(RemoteRequestView),
    CheckLocal(usize),
    ReadLocal(usize),
    Upload(usize, Seq<char>),
    ProbeMetadata(usize),
    ProbeHeader(usize),
    StatLocal(usize),
    Download(usize),
    WriteLocal(usize, Seq<char>),
    Announce(usize, Seq<char>),
    Finish(SyncStatusView),
    Abort(SyncErrorView),
    Unexpected,
}

impl View for BulkAction {
    type V = BulkActionView;

    open spec fn view(&self) -> BulkActionView {
        match self {
            BulkAction::Backup => BulkActionView::Backup,
            BulkAction::Send(request) => BulkActionView::Send(request@),
            BulkAction::CheckLocal(i) => BulkActionView::CheckLocal(*i),
            BulkAction::ReadLocal(i) => BulkActionView::ReadLocal(*i),
            BulkAction::Upload(i, c) => BulkActionView::Upload(*i, c@),
            BulkAction::ProbeMetadata(i) => BulkActionView::ProbeMetadata(*i),
            BulkAction::ProbeHeader(i) => BulkActionView::ProbeHeader(*i),
            BulkAction::StatLocal(i) => BulkActionView::StatLocal(*i),
            BulkAction::Download(i) => BulkActionView::Download(*i),
            BulkAction::WriteLocal(i, c) => BulkActionView::WriteLocal(*i, c@),
            BulkAction::Announce(i, c) => BulkActionView::Announce(*i, c@),
            BulkAction::Finish(report) => BulkActionView::Finish(report@),
            BulkAction::Abort(e) => BulkActionView::Abort(e@),
            BulkAction::Unexpected => BulkActionView::Unexpected,
        }
    }
}

/// The modification time that a one-way pass reports: zero where the file
/// system gives none.
pub open spec fn spec_modified_or_zero(stat: LocalStat) -> u64 {
    match stat {
        LocalStat::Modified(seconds) => seconds,
        _ => 0,
    }
}

/// Computes the modification time that a one-way pass reports.
pub fn modified_or_zero(stat: LocalStat) -> (seconds: u64)
    ensures
        seconds == spec_modified_or_zero(stat),
{
    match stat {
        LocalStat::Modified(seconds) => seconds,
        _ => 0,
    }
}

/// The status of a note that was moved.
pub open spec fn spec_moved(tab_index: usize, stat: LocalStat, remote: Option<u64>) -> NoteStatus {
    NoteStatus {
        tab_index,
        local_modified: spec_modified_or_zero(stat),
        remote_modified: remote,
        synced: true,
        conflict: false,
    }
}

/// Whether `statuses` holds statuses of notes before `bound` only, each
/// filed under its own index and synced.
pub open spec fn spec_only_moved(statuses: Map<usize, NoteStatus>, bound: usize) -> bool {
    forall|i: usize| #[trigger]
        statuses.dom().contains(i) ==> i < bound && statuses[i].tab_index == i
            && statuses[i].synced && !statuses[i].conflict
}

/// Where an upload-all pass stands. The number is the index of the note
/// that is being worked on.
#[derive(Clone, Copy, Debug, PartialEq, Eq, Structural)]
pub enum UploadPhase {
    /// The backup of the local notes is under way.
    AwaitBackup,
    /// The probe of the sync folder is under way.
    AwaitProbe,
    /// The creation of the sync folder is under way.
    AwaitCreate,
    /// The local file is being looked for.
    AwaitExists(usize),
    /// The local file is being read.
    AwaitRead(usize),
    /// The upload is under way.
    AwaitUpload(usize),
    /// The metadata probe is under way.
    AwaitMetadata(usize),
    /// The header probe is under way.
    AwaitHeader(usize),
    /// The local file is being inspected; the remote time is known.
    AwaitStat(usize, Option<u64>),
    /// The pass is over or was given up.
    Finished,
}

impl UploadPhase {
    /// The index of the note that is being worked on.
    pub open spec fn spec_index(self) -> Option<usize> {
        match self {
            UploadPhase::AwaitExists(i) => Some(i),
            UploadPhase::AwaitRead(i) => Some(i),
            UploadPhase::AwaitUpload(i) => Some(i),
            UploadPhase::AwaitMetadata(i) => Some(i),
            UploadPhase::AwaitHeader(i) => Some(i),
            UploadPhase::AwaitStat(i, _) => Some(i),
            _ => None,
        }
    }
}

/// The machine that uploads every local note.
#[derive(Debug)]
pub struct UploadAll {
    phase: UploadPhase,
    statuses: HashMap<usize, NoteStatus>,
}

/// The mathematical content of an [`UploadAll`].
pub struct UploadAllView {
    pub phase: UploadPhase,
    pub statuses: Map<usize, NoteStatus>,
}

impl UploadAllView {
    /// What holds of an upload-all pass at every moment: the note that is
    /// being worked on is one of the notes, and statuses are held of notes
    /// before it only.
    pub open spec fn wf(self) -> bool {
        match self.phase.spec_index() {
            Some(i) => i < NOTE_COUNT && spec_only_moved(self.statuses, i),
            None => self.statuses == Map::<usize, NoteStatus>::empty(),
        }
    }
}

impl View for UploadAll {
    type V = UploadAllView;

    closed spec fn view(&self) -> UploadAllView {
        UploadAllView { phase: self.phase, statuses: self.statuses@ }
    }
}

/// The upload-all pass once it is over or was given up.
pub open spec fn spec_upload_end() -> UploadAllView {
    UploadAllView { phase: UploadPhase::Finished, statuses: Map::empty() }
}

/// The upload-all pass turns to the note after `done`, or ends with its
/// report where `done` was the last.
pub open spec fn spec_upload_next(statuses: Map<usize, NoteStatus>, done: usize, now: u64) -> (
    UploadAllView,
    BulkActionView,
) {
    if done + 1 < NOTE_COUNT {
        (
            UploadAllView { phase: UploadPhase::AwaitExists((done + 1) as usize), statuses },
            BulkActionView::CheckLocal((done + 1) as usize),
        )
    } else {
        (spec_upload_end(), BulkActionView::Finish(spec_report(statuses, now)))
    }
}

/// The upload-all pass turns to its first note.
pub open spec fn spec_upload_first() -> (UploadAllView, BulkActionView) {
    (
        UploadAllView { phase: UploadPhase::AwaitExists(0), statuses: Map::empty() },
        BulkActionView::CheckLocal(0),
    )
}

/// One move of an upload-all pass.
///
/// The pass goes on however the backup ended. The sync folder is made sure
/// of first; where it is out of reach the
/// pass is given up. Then each note in turn: a note without a local file,
/// with a local file that cannot be read, or whose upload fails is passed
/// over and gets no status. After an upload the remote time is asked for,
/// by the metadata probe or, where that fails, by the header probe, and
/// counts as absent where both fail; then the local time is read, and the
/// note is filed as synced.
pub open spec fn spec_upload_step(
    m: UploadAllView,
    config: NextcloudConfigView,
    event: BulkEventView,
    now: u64,
) -> (UploadAllView, BulkActionView) {
    match (m.phase, event) {
        (UploadPhase::AwaitBackup, BulkEventView::BackedUp(_)) => (
            UploadAllView { phase: UploadPhase::AwaitProbe, ..m },
            BulkActionView::Send(spec_container_probe_request(config)),
        ),
        (UploadPhase::AwaitProbe, BulkEventView::ContainerProbed(reply)) => {
            match spec_ensure_remote_directory(config, reply) {
                ContainerStepView::Ready => spec_upload_first(),
                ContainerStepView::Create(request) => (
                    UploadAllView { phase: UploadPhase::AwaitCreate, ..m },
                    BulkActionView::Send(request),
                ),
                ContainerStepView::Failed(e) => (spec_upload_end(), BulkActionView::Abort(e)),
            }
        },
        (UploadPhase::AwaitCreate, BulkEventView::ContainerCreated(reply)) => {
            match spec_remote_directory_created(reply) {
                Ok(_) => spec_upload_first(),
                Err(e) => (spec_upload_end(), BulkActionView::Abort(e)),
            }
        },
        (UploadPhase::AwaitExists(i), BulkEventView::LocalChecked(exists)) => if exists {
            (UploadAllView { phase: UploadPhase::AwaitRead(i), ..m }, BulkActionView::ReadLocal(i))
        } else {
            spec_upload_next(m.statuses, i, now)
        },
        (UploadPhase::AwaitRead(i), BulkEventView::LocalRead(Ok(content))) => (
            UploadAllView { phase: UploadPhase::AwaitUpload(i), ..m },
            BulkActionView::Upload(i, content),
        ),
        (UploadPhase::AwaitRead(i), BulkEventView::LocalRead(Err(_))) => spec_upload_next(
            m.statuses,
            i,
            now,
        ),
        (UploadPhase::AwaitUpload(i), BulkEventView::Uploaded(Ok(_))) => (
            UploadAllView { phase: UploadPhase::AwaitMetadata(i), ..m },
            BulkActionView::ProbeMetadata(i),
        ),
        (UploadPhase::AwaitUpload(i), BulkEventView::Uploaded(Err(_))) => spec_upload_next(
            m.statuses,
            i,
            now,
        ),
        (UploadPhase::AwaitMetadata(i), BulkEventView::Metadata(Ok(remote))) => (
            UploadAllView { phase: UploadPhase::AwaitStat(i, remote), ..m },
            BulkActionView::StatLocal(i),
        ),
        (UploadPhase::AwaitMetadata(i), BulkEventView::Metadata(Err(_))) => (
            UploadAllView { phase: UploadPhase::AwaitHeader(i), ..m },
            BulkActionView::ProbeHeader(i),
        ),
        (UploadPhase::AwaitHeader(i), BulkEventView::Header(answer)) => (
            UploadAllView {
                phase: UploadPhase::AwaitStat(
                    i,
                    match answer {
                        Ok(remote) => remote,
                        Err(_) => None,
                    },
                ),
                ..m
            },
            BulkActionView::StatLocal(i),
        ),
        (UploadPhase::AwaitStat(i, remote), BulkEventView::Stat(stat)) => spec_upload_next(
            m.statuses.insert(i, spec_moved(i, stat, remote)),
            i,
            now,
        ),
        _ => (m, BulkActionView::Unexpected),
    }
}

impl UploadAll {
    #[verifier::type_invariant]
    spec fn inv(self) -> bool {
        self@.wf()
    }

    /// Starts an upload-all pass. The first thing to do is the backup of
    /// the local notes.
    pub fn start() -> (begun: (UploadAll, BulkAction))
        ensures
            begun.0@ == (UploadAllView { phase: UploadPhase::AwaitBackup, statuses: Map::empty() }),
            begun.1@ == BulkActionView::Backup,
    {
        (UploadAll { phase: UploadPhase::AwaitBackup, statuses: HashMap::new() }, BulkAction::Backup)
    }

    /// Tells where the pass stands.
    pub fn phase(&self) -> (phase: UploadPhase)
        ensures
            phase == self@.phase,
            self@.wf(),
    {
        proof {
            use_type_invariant(self);
        }
        self.phase
    }

    fn end() -> (ended: UploadAll)
        ensures
            ended@ == spec_upload_end(),
    {
        UploadAll { phase: UploadPhase::Finished, statuses: HashMap::new() }
    }

    fn first() -> (moved: (UploadAll, BulkAction))
        ensures
            (moved.0@, moved.1@) == spec_upload_first(),
    {
        (
            UploadAll { phase: UploadPhase::AwaitExists(0), statuses: HashMap::new() },
            BulkAction::CheckLocal(0),
        )
    }

    fn next(statuses: HashMap<usize, NoteStatus>, done: usize, now: u64) -> (moved: (
        UploadAll,
        BulkAction,
    ))
        requires
            done < NOTE_COUNT,
            spec_only_moved(statuses@, (done + 1) as usize),
        ensures
            (moved.0@, moved.1@) == spec_upload_next(statuses@, done, now),
    {
        if done + 1 < NOTE_COUNT {
            (
                UploadAll { phase: UploadPhase::AwaitExists(done + 1), statuses },
                BulkAction::CheckLocal(done + 1),
            )
        } else {
            let report = SyncStatus {
                last_sync: Some(now),
                syncing: false,
                error: None,
                notes_status: statuses,
            };
            (UploadAll::end(), BulkAction::Finish(report))
        }
    }

    /// Makes one move. `now` is the current time in seconds since the
    /// epoch. A report that comes out holds statuses of notes only, each
    /// filed under its own index and synced.
    pub fn step(self, client: &NextcloudClient, event: BulkEvent, now: u64) -> (moved: (
        UploadAll,
        BulkAction,
    ))
        ensures
            (moved.0@, moved.1@) == spec_upload_step(self@, client@, event@, now),
            moved.1@ matches BulkActionView::Finish(report) ==> spec_only_moved(
                report.notes_status,
                NOTE_COUNT,
            ),
    {
        proof {
            use_type_invariant(&self);
        }
        let phase = self.phase;
        let mut statuses = self.statuses;
        match (phase, event) {
            (UploadPhase::AwaitBackup, BulkEvent::BackedUp(_)) => (
                UploadAll { phase: UploadPhase::AwaitProbe, statuses },
                BulkAction::Send(client.container_probe_request()),
            ),
            (UploadPhase::AwaitProbe, BulkEvent::ContainerProbed(reply)) => {
                match client.ensure_remote_directory(reply) {
                    ContainerStep::Ready => UploadAll::first(),
                    ContainerStep::Create(request) => (
                        UploadAll { phase: UploadPhase::AwaitCreate, statuses },
                        BulkAction::Send(request),
                    ),
                    ContainerStep::Failed(e) => (UploadAll::end(), BulkAction::Abort(e)),
                }
            },
            (UploadPhase::AwaitCreate, BulkEvent::ContainerCreated(reply)) => {
                match client.remote_directory_created(reply) {
                    Ok(_) => UploadAll::first(),
                    Err(e) => (UploadAll::end(), BulkAction::Abort(e)),
                }
            },
            (UploadPhase::AwaitExists(i), BulkEvent::LocalChecked(exists)) => {
                if exists {
                    (
                        UploadAll { phase: UploadPhase::AwaitRead(i), statuses },
                        BulkAction::ReadLocal(i),
                    )
                } else {
                    UploadAll::next(statuses, i, now)
                }
            },
            (UploadPhase::AwaitRead(i), BulkEvent::LocalRead(Ok(content))) => (
                UploadAll { phase: UploadPhase::AwaitUpload(i), statuses },
                BulkAction::Upload(i, content),
            ),
            (UploadPhase::AwaitRead(i), BulkEvent::LocalRead(Err(_))) => {
                UploadAll::next(statuses, i, now)
            },
            (UploadPhase::AwaitUpload(i), BulkEvent::Uploaded(Ok(_))) => (
                UploadAll { phase: UploadPhase::AwaitMetadata(i), statuses },
                BulkAction::ProbeMetadata(i),
            ),
            (UploadPhase::AwaitUpload(i), BulkEvent::Uploaded(Err(_))) => {
                UploadAll::next(statuses, i, now)
            },
            (UploadPhase::AwaitMetadata(i), BulkEvent::Metadata(Ok(remote))) => (
                UploadAll { phase: UploadPhase::AwaitStat(i, remote), statuses },
                BulkAction::StatLocal(i),
            ),
            (UploadPhase::AwaitMetadata(i), BulkEvent::Metadata(Err(_))) => (
                UploadAll { phase: UploadPhase::AwaitHeader(i), statuses },
                BulkAction::ProbeHeader(i),
            ),
            (UploadPhase::AwaitHeader(i), BulkEvent::Header(answer)) => {
                let remote = match answer {
                    Ok(remote) => remote,
                    Err(_) => None,
                };
                (
                    UploadAll { phase: UploadPhase::AwaitStat(i, remote), statuses },
                    BulkAction::StatLocal(i),
                )
            },
            (UploadPhase::AwaitStat(i, remote), BulkEvent::Stat(stat)) => {
                let status = NoteStatus {
                    tab_index: i,
                    local_modified: modified_or_zero(stat),
                    remote_modified: remote,
                    synced: true,
                    conflict: false,
                };
                statuses.insert(i, status);
                UploadAll::next(statuses, i, now)
            },
            (phase, _) => (UploadAll { phase, statuses }, BulkAction::Unexpected),
        }
    }
}

/// Where a download-all pass stands.
#[derive(Debug)]
enum DownloadPhase {
    AwaitBackup,
    AwaitMetadata(usize),
    AwaitHeader(usize),
    AwaitDownload(usize, u64),
    AwaitWrite(usize, u64, String),
    AwaitStat(usize, u64, String),
    AwaitAnnounce(usize),
    Finished,
}

/// Where a download-all pass stands, as a mathematical value. The first
/// number is the index of the note that is being worked on; the second,
/// where there is one, is its remote modification time.
pub enum DownloadPhaseView {
    /// The backup of the local notes is under way.
    AwaitBackup,
    /// The metadata probe is under way.
    AwaitMetadata(usize),
    /// The header probe is under way.
    AwaitHeader(usize),
    /// The download is under way.
    AwaitDownload(usize, u64),
    /// The local file is being written with this content.
    AwaitWrite(usize, u64, Seq<char>),
    /// The local file, which now holds this content, is being inspected.
    AwaitStat(usize, u64, Seq<char>),
    /// The new content is being announced.
    AwaitAnnounce(usize),
    /// The pass is over.
    Finished,
}

impl DownloadPhaseView {
    /// The index of the note that is being worked on.
    pub open spec fn spec_index(self) -> Option<usize> {
        match self {
            DownloadPhaseView::AwaitMetadata(i) => Some(i),
            DownloadPhaseView::AwaitHeader(i) => Some(i),
            DownloadPhaseView::AwaitDownload(i, _) => Some(i),
            DownloadPhaseView::AwaitWrite(i, _, _) => Some(i),
            DownloadPhaseView::AwaitStat(i, _, _) => Some(i),
            DownloadPhaseView::AwaitAnnounce(i) => Some(i),
            DownloadPhaseView::AwaitBackup => None,
            DownloadPhaseView::Finished => None,
        }
    }
}

/// The machine that downloads every remote note.
#[derive(Debug)]
pub struct DownloadAll {
    phase: DownloadPhase,
    statuses: HashMap<usize, NoteStatus>,
}

/// The mathematical content of a [`DownloadAll`].
pub struct DownloadAllView {
    pub phase: DownloadPhaseView,
    pub statuses: Map<usize, NoteStatus>,
}

impl DownloadAllView {
    /// What holds of a download-all pass at every moment: the note that is
    /// being worked on is one of the notes, and statuses are held of notes
    /// up to it only, of the note itself only while it is being announced.
    pub open spec fn wf(self) -> bool {
        match self.phase {
            DownloadPhaseView::AwaitBackup => self.statuses == Map::<usize, NoteStatus>::empty(),
            DownloadPhaseView::Finished => self.statuses == Map::<usize, NoteStatus>::empty(),
            DownloadPhaseView::AwaitAnnounce(i) => i < NOTE_COUNT && spec_only_moved(
                self.statuses,
                (i + 1) as usize,
            ),
            _ => self.phase.spec_index() matches Some(i) && i < NOTE_COUNT && spec_only_moved(
                self.statuses,
                i,
            ),
        }
    }
}

impl View for DownloadAll {
    type V = DownloadAllView;

    closed spec fn view(&self) -> DownloadAllView {
        DownloadAllView {
            phase: match self.phase {
                DownloadPhase::AwaitBackup => DownloadPhaseView::AwaitBackup,
                DownloadPhase::AwaitMetadata(i) => DownloadPhaseView::AwaitMetadata(i),
                DownloadPhase::AwaitHeader(i) => DownloadPhaseView::AwaitHeader(i),
                DownloadPhase::AwaitDownload(i, r) => DownloadPhaseView::AwaitDownload(i, r),
                DownloadPhase::AwaitWrite(i, r, c) => DownloadPhaseView::AwaitWrite(i, r, c@),
                DownloadPhase::AwaitStat(i, r, c) => DownloadPhaseView::AwaitStat(i, r, c@),
                DownloadPhase::AwaitAnnounce(i) => DownloadPhaseView::AwaitAnnounce(i),
                DownloadPhase::Finished => DownloadPhaseView::Finished,
            },
            statuses: self.statuses@,
        }
    }
}

/// The download-all pass as it starts.
pub open spec fn spec_download_start() -> (DownloadAllView, BulkActionView) {
    (
        DownloadAllView { phase: DownloadPhaseView::AwaitBackup, statuses: Map::empty() },
        BulkActionView::Backup,
    )
}

/// The download-all pass turns to the note after `done`, or ends with its
/// report where `done` was the last.
pub open spec fn spec_download_next(statuses: Map<usize, NoteStatus>, done: usize, now: u64) -> (
    DownloadAllView,
    BulkActionView,
) {
    if done + 1 < NOTE_COUNT {
        (
            DownloadAllView {
                phase: DownloadPhaseView::AwaitMetadata((done + 1) as usize),
                statuses,
            },
            BulkActionView::ProbeMetadata((done + 1) as usize),
        )
    } else {
        (
            DownloadAllView { phase: DownloadPhaseView::Finished, statuses: Map::empty() },
            BulkActionView::Finish(spec_report(statuses, now)),
        )
    }
}

/// What follows once the probes have answered for note `i`: the download
/// where the note exists remotely, else the next note.
pub open spec fn spec_download_probed(
    m: DownloadAllView,
    i: usize,
    remote: Option<u64>,
    now: u64,
) -> (DownloadAllView, BulkActionView) {
    match remote {
        Some(time) => (
            DownloadAllView { phase: DownloadPhaseView::AwaitDownload(i, time), ..m },
            BulkActionView::Download(i),
        ),
        None => spec_download_next(m.statuses, i, now),
    }
}

/// One move of a download-all pass.
///
/// The pass goes on however the backup ended. Then each note in turn: its remote time is asked for, by the metadata probe
/// or, where that fails, by the header probe. A note that is absent, whose
/// probes both fail, whose download fails or whose local file cannot be
/// written is passed over and gets no status. A note that was written has
/// its local time read, is filed as synced, and its new content is
/// announced.
pub open spec fn spec_download_step(m: DownloadAllView, event: BulkEventView, now: u64) -> (
    DownloadAllView,
    BulkActionView,
) {
    match (m.phase, event) {
        (DownloadPhaseView::AwaitBackup, BulkEventView::BackedUp(_)) => (
            DownloadAllView { phase: DownloadPhaseView::AwaitMetadata(0), ..m },
            BulkActionView::ProbeMetadata(0),
        ),
        (DownloadPhaseView::AwaitMetadata(i), BulkEventView::Metadata(Ok(remote))) => {
            spec_download_probed(m, i, remote, now)
        },
        (DownloadPhaseView::AwaitMetadata(i), BulkEventView::Metadata(Err(_))) => (
            DownloadAllView { phase: DownloadPhaseView::AwaitHeader(i), ..m },
            BulkActionView::ProbeHeader(i),
        ),
        (DownloadPhaseView::AwaitHeader(i), BulkEventView::Header(answer)) => spec_download_probed(
            m,
            i,
            match answer {
                Ok(remote) => remote,
                Err(_) => None,
            },
            now,
        ),
        (DownloadPhaseView::AwaitDownload(i, remote), BulkEventView::Downloaded(Ok(content))) => (
            DownloadAllView { phase: DownloadPhaseView::AwaitWrite(i, remote, content), ..m },
            BulkActionView::WriteLocal(i, content),
        ),
        (DownloadPhaseView::AwaitDownload(i, _), BulkEventView::Downloaded(Err(_))) => {
            spec_download_next(m.statuses, i, now)
        },
        (DownloadPhaseView::AwaitWrite(i, remote, content), BulkEventView::LocalWritten(Ok(_))) => (
            DownloadAllView { phase: DownloadPhaseView::AwaitStat(i, remote, content), ..m },
            BulkActionView::StatLocal(i),
        ),
        (DownloadPhaseView::AwaitWrite(i, _, _), BulkEventView::LocalWritten(Err(_))) => {
            spec_download_next(m.statuses, i, now)
        },
        (DownloadPhaseView::AwaitStat(i, remote, content), BulkEventView::Stat(stat)) => (
            DownloadAllView {
                phase: DownloadPhaseView::AwaitAnnounce(i),
                statuses: m.statuses.insert(i, spec_moved(i, stat, Some(remote))),
            },
            BulkActionView::Announce(i, content),
        ),
        (DownloadPhaseView::AwaitAnnounce(i), BulkEventView::Announced) => spec_download_next(
            m.statuses,
            i,
            now,
        ),
        _ => (m, BulkActionView::Unexpected),
    }
}

impl DownloadAll {
    #[verifier::type_invariant]
    spec fn inv(self) -> bool {
        self@.wf()
    }

    /// Starts a download-all pass. The first thing to do is the backup of
    /// the local notes.
    pub fn start() -> (begun: (DownloadAll, BulkAction))
        ensures
            (begun.0@, begun.1@) == spec_download_start(),
    {
        (DownloadAll { phase: DownloadPhase::AwaitBackup, statuses: HashMap::new() }, BulkAction::Backup)
    }

    /// Tells whether the pass is over.
    pub fn is_finished(&self) -> (finished: bool)
        ensures
            finished == (self@.phase is Finished),
    {
        match self.phase {
            DownloadPhase::Finished => true,
            _ => false,
        }
    }

    fn next(statuses: HashMap<usize, NoteStatus>, done: usize, now: u64) -> (moved: (
        DownloadAll,
        BulkAction,
    ))
        requires
            done < NOTE_COUNT,
            spec_only_moved(statuses@, (done + 1) as usize),
        ensures
            (moved.0@, moved.1@) == spec_download_next(statuses@, done, now),
    {
        if done + 1 < NOTE_COUNT {
            (
                DownloadAll { phase: DownloadPhase::AwaitMetadata(done + 1), statuses },
                BulkAction::ProbeMetadata(done + 1),
            )
        } else {
            let report = SyncStatus {
                last_sync: Some(now),
                syncing: false,
                error: None,
                notes_status: statuses,
            };
            (
                DownloadAll { phase: DownloadPhase::Finished, statuses: HashMap::new() },
                BulkAction::Finish(report),
            )
        }
    }

    fn probed(statuses: HashMap<usize, NoteStatus>, i: usize, remote: Option<u64>, now: u64) -> (moved:
        (DownloadAll, BulkAction))
        requires
            i < NOTE_COUNT,
            spec_only_moved(statuses@, i),
        ensures
            forall|m: DownloadAllView|
                m.statuses == statuses@ ==> (moved.0@, moved.1@) == #[trigger] spec_download_probed(
                    m,
                    i,
                    remote,
                    now,
                ),
            moved.1@ matches BulkActionView::Finish(report) ==> spec_only_moved(
                report.notes_status,
                NOTE_COUNT,
            ),
    {
        match remote {
            Some(time) => (
                DownloadAll { phase: DownloadPhase::AwaitDownload(i, time), statuses },
                BulkAction::Download(i),
            ),
            None => DownloadAll::next(statuses, i, now),
        }
    }

    /// Makes one move. `now` is the current time in seconds since the
    /// epoch. A report that comes out holds statuses of notes only, each
    /// filed under its own index and synced.
    pub fn step(self, event: BulkEvent, now: u64) -> (moved: (DownloadAll, BulkAction))
        ensures
            (moved.0@, moved.1@) == spec_download_step(self@, event@, now),
            moved.1@ matches BulkActionView::Finish(report) ==> spec_only_moved(
                report.notes_status,
                NOTE_COUNT,
            ),
    {
        proof {
            use_type_invariant(&self);
        }
        let mut statuses = self.statuses;
        match (self.phase, event) {
            (DownloadPhase::AwaitBackup, BulkEvent::BackedUp(_)) => (
                DownloadAll { phase: DownloadPhase::AwaitMetadata(0), statuses },
                BulkAction::ProbeMetadata(0),
            ),
            (DownloadPhase::AwaitMetadata(i), BulkEvent::Metadata(Ok(remote))) => {
                DownloadAll::probed(statuses, i, remote, now)
            },
            (DownloadPhase::AwaitMetadata(i), BulkEvent::Metadata(Err(_))) => (
                DownloadAll { phase: DownloadPhase::AwaitHeader(i), statuses },
                BulkAction::ProbeHeader(i),
            ),
            (DownloadPhase::AwaitHeader(i), BulkEvent::Header(answer)) => {
                let remote = match answer {
                    Ok(remote) => remote,
                    Err(_) => None,
                };
                DownloadAll::probed(statuses, i, remote, now)
            },
            (DownloadPhase::AwaitDownload(i, remote), BulkEvent::Downloaded(Ok(content))) => {
                let copy = content.clone();
                (
                    DownloadAll { phase: DownloadPhase::AwaitWrite(i, remote, copy), statuses },
                    BulkAction::WriteLocal(i, content),
                )
            },
            (DownloadPhase::AwaitDownload(i, _), BulkEvent::Downloaded(Err(_))) => {
                DownloadAll::next(statuses, i, now)
            },
            (DownloadPhase::AwaitWrite(i, remote, content), BulkEvent::LocalWritten(Ok(_))) => (
                DownloadAll { phase: DownloadPhase::AwaitStat(i, remote, content), statuses },
                BulkAction::StatLocal(i),
            ),
            (DownloadPhase::AwaitWrite(i, _, _), BulkEvent::LocalWritten(Err(_))) => {
                DownloadAll::next(statuses, i, now)
            },
            (DownloadPhase::AwaitStat(i, remote, content), BulkEvent::Stat(stat)) => {
                let status = NoteStatus {
                    tab_index: i,
                    local_modified: modified_or_zero(stat),
                    remote_modified: Some(remote),
                    synced: true,
                    conflict: false,
                };
                statuses.insert(i, status);
                (
                    DownloadAll { phase: DownloadPhase::AwaitAnnounce(i), statuses },
                    BulkAction::Announce(i, content),
                )
            },
            (DownloadPhase::AwaitAnnounce(i), BulkEvent::Announced) => {
                DownloadAll::next(statuses, i, now)
            },
            (phase, _) => (DownloadAll { phase, statuses }, BulkAction::Unexpected),
        }
    }
}

/// Begins a pass that uploads every local note. The machine that comes
/// back is driven with [`UploadAll::step`].
pub fn upload_all_notes() -> (begun: (UploadAll, BulkAction))
    ensures
        begun.0@ == (UploadAllView { phase: UploadPhase::AwaitBackup, statuses: Map::empty() }),
        begun.1@ == BulkActionView::Backup,
{
    UploadAll::start()
}

/// Begins a pass that downloads every remote note. The machine that comes
/// back is driven with [`DownloadAll::step`].
pub fn download_all_notes() -> (begun: (DownloadAll, BulkAction))
    ensures
        (begun.0@, begun.1@) == spec_download_start(),
{
    DownloadAll::start()
}

/// The remote modification time as a one-way pass comes to know it: from
/// the metadata probe where that succeeds, else from the header probe, and
/// absent where both fail.
pub open spec fn spec_remote_seen(
    metadata: Result<Option<u64>, SyncErrorView>,
    header: Result<Option<u64>, SyncErrorView>,
) -> Option<u64> {
    match metadata {
        Ok(remote) => remote,
        Err(_) => match header {
            Ok(remote) => remote,
            Err(_) => None,
        },
    }
}

/// How the outside answers what an upload-all pass asks about one note.
pub struct UploadAnswers {
    /// Whether the local file exists.
    pub exists: bool,
    /// The answer to reading the local file.
    pub read: Result<Seq<char>, Seq<char>>,
    /// The answer to the upload.
    pub upload: Result<(), SyncErrorView>,
    /// The answer to the metadata probe after the upload.
    pub metadata: Result<Option<u64>, SyncErrorView>,
    /// The answer to the header probe after the upload.
    pub header: Result<Option<u64>, SyncErrorView>,
    /// The age of the local file.
    pub stat: LocalStat,
}

impl UploadAnswers {
    /// Whether the note is uploaded: it has a local file, the file can be
    /// read, and the upload succeeds.
    pub open spec fn uploaded(self) -> bool {
        self.exists && self.read is Ok && self.upload is Ok
    }

    /// The status that is filed for the note once it is uploaded.
    pub open spec fn status(self, tab_index: usize) -> NoteStatus {
        spec_moved(tab_index, self.stat, spec_remote_seen(self.metadata, self.header))
    }
}

/// How the outside answers each thing that an upload-all pass can ask for.
pub struct UploadEnvironment {
    /// How the backup ends.
    pub backup: Result<Seq<char>, Seq<char>>,
    /// The reply to the probe of the sync folder.
    pub probe: ReplyView,
    /// The reply to the creation of the sync folder.
    pub create: ReplyView,
    /// The answers about each note, by the index of the note.
    pub notes: Seq<UploadAnswers>,
}

impl UploadEnvironment {
    /// There are answers about every note.
    pub open spec fn wf(self) -> bool {
        self.notes.len() == NOTE_COUNT
    }

    /// Whether the sync folder is there for the pass: it exists, or it is
    /// missing and can be created.
    pub open spec fn container_in_reach(self, config: NextcloudConfigView) -> bool {
        match spec_ensure_remote_directory(config, self.probe) {
            ContainerStepView::Ready => true,
            ContainerStepView::Create(_) => spec_remote_directory_created(self.create) is Ok,
            ContainerStepView::Failed(_) => false,
        }
    }

    /// The event with which the environment answers `action` of a pass that
    /// stands in `phase`; `None` for an action that ends the pass.
    pub open spec fn answer(self, phase: UploadPhase, action: BulkActionView) -> Option<
        BulkEventView,
    > {
        match action {
            BulkActionView::Backup => Some(BulkEventView::BackedUp(self.backup)),
            BulkActionView::Send(_) => if phase == UploadPhase::AwaitCreate {
                Some(BulkEventView::ContainerCreated(self.create))
            } else {
                Some(BulkEventView::ContainerProbed(self.probe))
            },
            BulkActionView::CheckLocal(i) => if i < self.notes.len() {
                Some(BulkEventView::LocalChecked(self.notes[i as int].exists))
            } else {
                None
            },
            BulkActionView::ReadLocal(i) => if i < self.notes.len() {
                Some(BulkEventView::LocalRead(self.notes[i as int].read))
            } else {
                None
            },
            BulkActionView::Upload(i, _) => if i < self.notes.len() {
                Some(BulkEventView::Uploaded(self.notes[i as int].upload))
            } else {
                None
            },
            BulkActionView::ProbeMetadata(i) => if i < self.notes.len() {
                Some(BulkEventView::Metadata(self.notes[i as int].metadata))
            } else {
                None
            },
            BulkActionView::ProbeHeader(i) => if i < self.notes.len() {
                Some(BulkEventView::Header(self.notes[i as int].header))
            } else {
                None
            },
            BulkActionView::StatLocal(i) => if i < self.notes.len() {
                Some(BulkEventView::Stat(self.notes[i as int].stat))
            } else {
                None
            },
            _ => None,
        }
    }

    /// Whether `statuses` holds a status for a note among the first `count`
    /// exactly when that note is uploaded, and then the status that is
    /// filed for it.
    pub open spec fn files(self, statuses: Map<usize, NoteStatus>, count: usize) -> bool {
        &&& forall|i: usize| #[trigger]
            statuses.dom().contains(i) <==> i < count && self.notes[i as int].uploaded()
        &&& forall|i: usize|
            i < count && self.notes[i as int].uploaded() ==> #[trigger] statuses[i]
                == self.notes[i as int].status(i)
    }
}

/// The action with which the upload-all pass of machine `m`, which has just
/// asked for `action`, ends against `env`, after at most `moves` further
/// moves.
pub open spec fn spec_upload_run(
    m: UploadAllView,
    action: BulkActionView,
    config: NextcloudConfigView,
    env: UploadEnvironment,
    now: u64,
    moves: nat,
) -> BulkActionView
    decreases moves,
{
    match env.answer(m.phase, action) {
        None => action,
        Some(event) => if moves == 0 {
            action
        } else {
            let (next, then) = spec_upload_step(m, config, event, now);
            spec_upload_run(next, then, config, env, now, (moves - 1) as nat)
        },
    }
}

/// No note takes a one-way pass more moves than this.
pub open spec fn spec_moves_per_note() -> nat {
    6
}

/// No upload-all pass takes more moves than this: the backup, the probe
/// and the creation of the sync folder, and six moves for each of the seven
/// notes.
pub open spec fn spec_max_upload_moves() -> nat {
    45
}

/// The action with which a whole upload-all pass ends against `env`.
pub open spec fn spec_whole_upload(
    config: NextcloudConfigView,
    env: UploadEnvironment,
    now: u64,
) -> BulkActionView {
    spec_upload_run(
        UploadAllView { phase: UploadPhase::AwaitBackup, statuses: Map::empty() },
        BulkActionView::Backup,
        config,
        env,
        now,
        spec_max_upload_moves(),
    )
}

/// The rest of an upload-all pass that is about to look at note `index`
/// ends with a report that files exactly the notes that are uploaded.
proof fn lemma_upload_run_notes(
    statuses: Map<usize, NoteStatus>,
    index: usize,
    config: NextcloudConfigView,
    env: UploadEnvironment,
    now: u64,
    moves: nat,
)
    requires
        env.wf(),
        index < NOTE_COUNT,
        env.files(statuses, index),
        moves >= spec_moves_per_note() * (NOTE_COUNT - index),
    ensures
        spec_upload_run(
            UploadAllView { phase: UploadPhase::AwaitExists(index), statuses },
            BulkActionView::CheckLocal(index),
            config,
            env,
            now,
            moves,
        ) matches BulkActionView::Finish(report) && {
            &&& env.files(report.notes_status, NOTE_COUNT)
            &&& report.last_sync == Some(now)
            &&& !report.syncing
            &&& report.error is None
        },
    decreases NOTE_COUNT - index,
{
    reveal_with_fuel(spec_upload_run, 7);
    let answers = env.notes[index as int];
    let after = if answers.uploaded() {
        statuses.insert(index, answers.status(index))
    } else {
        statuses
    };
    assert(env.files(after, (index + 1) as usize));
    if index + 1 < NOTE_COUNT {
        let following = (index + 1) as usize;
        lemma_upload_run_notes(after, following, config, env, now, (moves - 1) as nat);
        lemma_upload_run_notes(after, following, config, env, now, (moves - 2) as nat);
        lemma_upload_run_notes(after, following, config, env, now, (moves - 3) as nat);
        lemma_upload_run_notes(after, following, config, env, now, (moves - 5) as nat);
        lemma_upload_run_notes(after, following, config, env, now, (moves - 6) as nat);
    }
}

/// Every upload-all pass ends, whatever the server and the disk answer.
/// Where the sync folder is there or can be created, it ends with a report
/// that holds a status for a note exactly when that note was uploaded: it
/// has a local file, the file could be read, and the upload succeeded. The
/// status is filed under the note's index, is synced, and carries the local
/// time and the remote time as the probes after the upload gave them. A
/// note that was not uploaded has no status. Where the sync folder is out
/// of reach, the pass is given up and uploads nothing. How the backup ended
/// changes none of this.
pub proof fn law_upload_pass_files_what_was_uploaded(
    config: NextcloudConfigView,
    env: UploadEnvironment,
    now: u64,
)
    requires
        env.wf(),
    ensures
        match spec_whole_upload(config, env, now) {
            BulkActionView::Finish(report) => {
                &&& env.container_in_reach(config)
                &&& env.files(report.notes_status, NOTE_COUNT)
                &&& report.last_sync == Some(now)
                &&& !report.syncing
                &&& report.error is None
            },
            BulkActionView::Abort(_) => !env.container_in_reach(config),
            _ => false,
        },
{
    reveal_with_fuel(spec_upload_run, 4);
    let none = Map::<usize, NoteStatus>::empty();
    assert(env.files(none, 0));
    match spec_ensure_remote_directory(config, env.probe) {
        ContainerStepView::Ready => {
            lemma_upload_run_notes(none, 0, config, env, now, 43);
        },
        ContainerStepView::Create(_) => {
            if spec_remote_directory_created(env.create) is Ok {
                lemma_upload_run_notes(none, 0, config, env, now, 42);
            }
        },
        ContainerStepView::Failed(_) => {},
    }
}

/// How the outside answers what a download-all pass asks about one note.
pub struct DownloadAnswers {
    /// The answer to the metadata probe.
    pub metadata: Result<Option<u64>, SyncErrorView>,
    /// The answer to the header probe.
    pub header: Result<Option<u64>, SyncErrorView>,
    /// The answer to the download.
    pub download: Result<Seq<char>, SyncErrorView>,
    /// The answer to writing the local file.
    pub write: Result<(), Seq<char>>,
    /// The age of the local file after it was written.
    pub stat: LocalStat,
}

impl DownloadAnswers {
    /// Whether the note is downloaded: the probes find it on the server,
    /// the download succeeds, and the local file can be written.
    pub open spec fn downloaded(self) -> bool {
        spec_remote_seen(self.metadata, self.header) is Some && self.download is Ok
            && self.write is Ok
    }

    /// The status that is filed for the note once it is downloaded.
    pub open spec fn status(self, tab_index: usize) -> NoteStatus {
        spec_moved(tab_index, self.stat, spec_remote_seen(self.metadata, self.header))
    }
}

/// How the outside answers each thing that a download-all pass can ask
/// for.
pub struct DownloadEnvironment {
    /// How the backup ends.
    pub backup: Result<Seq<char>, Seq<char>>,
    /// The answers about each note, by the index of the note.
    pub notes: Seq<DownloadAnswers>,
}

impl DownloadEnvironment {
    /// There are answers about every note.
    pub open spec fn wf(self) -> bool {
        self.notes.len() == NOTE_COUNT
    }

    /// The event with which the environment answers `action`; `None` for an
    /// action that ends the pass.
    pub open spec fn answer(self, action: BulkActionView) -> Option<BulkEventView> {
        match action {
            BulkActionView::Backup => Some(BulkEventView::BackedUp(self.backup)),
            BulkActionView::ProbeMetadata(i) => if i < self.notes.len() {
                Some(BulkEventView::Metadata(self.notes[i as int].metadata))
            } else {
                None
            },
            BulkActionView::ProbeHeader(i) => if i < self.notes.len() {
                Some(BulkEventView::Header(self.notes[i as int].header))
            } else {
                None
            },
            BulkActionView::Download(i) => if i < self.notes.len() {
                Some(BulkEventView::Downloaded(self.notes[i as int].download))
            } else {
                None
            },
            BulkActionView::WriteLocal(i, _) => if i < self.notes.len() {
                Some(BulkEventView::LocalWritten(self.notes[i as int].write))
            } else {
                None
            },
            BulkActionView::StatLocal(i) => if i < self.notes.len() {
                Some(BulkEventView::Stat(self.notes[i as int].stat))
            } else {
                None
            },
            BulkActionView::Announce(_, _) => Some(BulkEventView::Announced),
            _ => None,
        }
    }

    /// Whether `statuses` holds a status for a note among the first `count`
    /// exactly when that note is downloaded, and then the status that is
    /// filed for it.
    pub open spec fn files(self, statuses: Map<usize, NoteStatus>, count: usize) -> bool {
        &&& forall|i: usize| #[trigger]
            statuses.dom().contains(i) <==> i < count && self.notes[i as int].downloaded()
        &&& forall|i: usize|
            i < count && self.notes[i as int].downloaded() ==> #[trigger] statuses[i]
                == self.notes[i as int].status(i)
    }
}

/// The action with which the download-all pass of machine `m`, which has
/// just asked for `action`, ends against `env`, after at most `moves`
/// further moves.
pub open spec fn spec_download_run(
    m: DownloadAllView,
    action: BulkActionView,
    env: DownloadEnvironment,
    now: u64,
    moves: nat,
) -> BulkActionView
    decreases moves,
{
    match env.answer(action) {
        None => action,
        Some(event) => if moves == 0 {
            action
        } else {
            let (next, then) = spec_download_step(m, event, now);
            spec_download_run(next, then, env, now, (moves - 1) as nat)
        },
    }
}

/// No download-all pass takes more moves than this: the backup, and six
/// moves for each of the seven notes.
pub open spec fn spec_max_download_moves() -> nat {
    43
}

/// The action with which a whole download-all pass ends against `env`.
pub open spec fn spec_whole_download(env: DownloadEnvironment, now: u64) -> BulkActionView {
    spec_download_run(
        spec_download_start().0,
        spec_download_start().1,
        env,
        now,
        spec_max_download_moves(),
    )
}

/// The rest of a download-all pass that is about to probe note `index`
/// ends with a report that files exactly the notes that are downloaded.
proof fn lemma_download_run_notes(
    statuses: Map<usize, NoteStatus>,
    index: usize,
    env: DownloadEnvironment,
    now: u64,
    moves: nat,
)
    requires
        env.wf(),
        index < NOTE_COUNT,
        env.files(statuses, index),
        moves >= spec_moves_per_note() * (NOTE_COUNT - index),
    ensures
        spec_download_run(
            DownloadAllView { phase: DownloadPhaseView::AwaitMetadata(index), statuses },
            BulkActionView::ProbeMetadata(index),
            env,
            now,
            moves,
        ) matches BulkActionView::Finish(report) && {
            &&& env.files(report.notes_status, NOTE_COUNT)
            &&& report.last_sync == Some(now)
            &&& !report.syncing
            &&& report.error is None
        },
    decreases NOTE_COUNT - index,
{
    reveal_with_fuel(spec_download_run, 7);
    let answers = env.notes[index as int];
    let after = if answers.downloaded() {
        statuses.insert(index, answers.status(index))
    } else {
        statuses
    };
    assert(env.files(after, (index + 1) as usize));
    if index + 1 < NOTE_COUNT {
        let following = (index + 1) as usize;
        lemma_download_run_notes(after, following, env, now, (moves - 1) as nat);
        lemma_download_run_notes(after, following, env, now, (moves - 2) as nat);
        lemma_download_run_notes(after, following, env, now, (moves - 3) as nat);
        lemma_download_run_notes(after, following, env, now, (moves - 4) as nat);
        lemma_download_run_notes(after, following, env, now, (moves - 5) as nat);
        lemma_download_run_notes(after, following, env, now, (moves - 6) as nat);
    }
}

/// Every download-all pass ends with a report, whatever the server and the
/// disk answer. The report holds a status for a note exactly when that note
/// was downloaded: a probe found it on the server, the download succeeded,
/// and the local file could be written. The status is filed under the
/// note's index, is synced, and carries the remote time as the probes gave
/// it and the local time as it was read after the write. A note that was
/// not downloaded has no status. How the backup ended changes none of this.
pub proof fn law_download_pass_files_what_was_downloaded(env: DownloadEnvironment, now: u64)
    requires
        env.wf(),
    ensures
        spec_whole_download(env, now) matches BulkActionView::Finish(report) && {
            &&& env.files(report.notes_status, NOTE_COUNT)
            &&& report.last_sync == Some(now)
            &&& !report.syncing
            &&& report.error is None
        },
{
    reveal_with_fuel(spec_download_run, 2);
    let none = Map::<usize, NoteStatus>::empty();
    assert(env.files(none, 0));
    lemma_download_run_notes(none, 0, env, now, 42);
}

} // verus!
