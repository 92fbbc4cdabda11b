//! Whole runs of the reconciler, and what holds of every one of them.
//!
//! A run is the reconciler driven from its start to its end against an
//! environment that answers each action. The laws below are stated for
//! every environment: whatever the server and the disk answer, the run
//! issues the transfers that the decision table asks for, and no others.

use crate::error::SyncErrorView;
use crate::reconcile::spec_local_modified;
use crate::reconcile::spec_read_failure;
use crate::reconcile::spec_start;
use crate::reconcile::spec_step;
use crate::reconcile::spec_write_failure;
use crate::reconcile::LocalStat;
use crate::reconcile::OutcomeView;
use crate::reconcile::ReconcileActionView;
use crate::reconcile::ReconcileEventView;
use crate::reconcile::ReconcilerView;
use crate::reconcile::TIME_TOLERANCE_SECS;
use crate::types::NoteStatus;
use vstd::prelude::*;

verus! {

/// How the outside answers each thing that a reconciler can ask for.
pub struct Environment {
    /// The answer to the metadata probe.
    pub metadata: Result<Option<u64>, SyncErrorView>,
    /// The answer to the header probe.
    pub header: Result<Option<u64>, SyncErrorView>,
    /// The age of the local file.
    pub stat: LocalStat,
    /// The answer to a download.
    pub download: Result<Seq<char>, SyncErrorView>,
    /// The answer to reading the local file.
    pub local_read: Result<Seq<char>, Seq<char>>,
    /// The answer to writing the local file.
    pub local_write: Result<(), Seq<char>>,
    /// The answer to an upload.
    pub upload: Result<(), SyncErrorView>,
}

impl Environment {
    /// The remote modification time as a run comes to know it: from the
    /// metadata probe where that succeeds, else from the header probe, and
    /// absent where both fail.
    pub open spec fn remote_seen(self) -> Option<u64> {
        match self.metadata {
            Ok(remote) => remote,
            Err(_) => match self.header {
                Ok(remote) => remote,
                Err(_) => None,
            },
        }
    }

    /// The event with which the environment answers `action`; `None` for an
    /// action that ends the run.
    pub open spec fn answer(self, action: ReconcileActionView) -> Option<ReconcileEventView> {
        match action {
            ReconcileActionView::ProbeMetadata => Some(ReconcileEventView::Metadata(self.metadata)),
            ReconcileActionView::ProbeHeader => Some(ReconcileEventView::Header(self.header)),
            ReconcileActionView::StatLocal => Some(ReconcileEventView::Stat(self.stat)),
            ReconcileActionView::Download => Some(ReconcileEventView::Downloaded(self.download)),
            ReconcileActionView::ReadLocal => Some(ReconcileEventView::LocalRead(self.local_read)),
            ReconcileActionView::WriteLocal(_) => Some(
                ReconcileEventView::LocalWritten(self.local_write),
            ),
            ReconcileActionView::Upload(_) => Some(ReconcileEventView::Uploaded(self.upload)),
            ReconcileActionView::Finish(_) => None,
            ReconcileActionView::Unexpected => None,
        }
    }
}

/// What happened during a run.
pub struct Run {
    /// How many metadata probes were asked for.
    pub metadata_probes: nat,
    /// How many header probes were asked for.
    pub header_probes: nat,
    /// How many downloads were asked for.
    pub downloads: nat,
    /// How many uploads were asked for.
    pub uploads: nat,
    /// How many writes of the local file were asked for.
    pub writes: nat,
    /// The content handed to the last upload.
    pub uploaded: Option<Seq<char>>,
    /// The content handed to the last write of the local file.
    pub written: Option<Seq<char>>,
    /// The outcome with which the run ended.
    pub outcome: Option<OutcomeView>,
}

/// The run that consists of `action` alone.
pub open spec fn spec_record(action: ReconcileActionView) -> Run {
    Run {
        metadata_probes: if action is ProbeMetadata {
            1
        } else {
            0
        },
        header_probes: if action is ProbeHeader {
            1
        } else {
            0
        },
        downloads: if action is Download {
            1
        } else {
            0
        },
        uploads: if action is Upload {
            1
        } else {
            0
        },
        writes: if action is WriteLocal {
            1
        } else {
            0
        },
        uploaded: match action {
            ReconcileActionView::Upload(content) => Some(content),
            _ => None,
        },
        written: match action {
            ReconcileActionView::WriteLocal(content) => Some(content),
            _ => None,
        },
        outcome: match action {
            ReconcileActionView::Finish(outcome) => Some(outcome),
            _ => None,
        },
    }
}

/// The run `first` followed by the run `rest`.
pub open spec fn spec_join(first: Run, rest: Run) -> Run {
    Run {
        metadata_probes: first.metadata_probes + rest.metadata_probes,
        header_probes: first.header_probes + rest.header_probes,
        downloads: first.downloads + rest.downloads,
        uploads: first.uploads + rest.uploads,
        writes: first.writes + rest.writes,
        uploaded: if rest.uploaded is Some {
            rest.uploaded
        } else {
            first.uploaded
        },
        written: if rest.written is Some {
            rest.written
        } else {
            first.written
        },
        outcome: if rest.outcome is Some {
            rest.outcome
        } else {
            first.outcome
        },
    }
}

/// The run of machine `m`, which has just asked for `action`, against
/// `env`, for at most `moves` further moves.
pub open spec fn spec_run(
    m: ReconcilerView,
    action: ReconcileActionView,
    env: Environment,
    moves: nat,
) -> Run
    decreases moves,
{
    match env.answer(action) {
        None => spec_record(action),
        Some(event) => if moves == 0 {
            spec_record(action)
        } else {
            let (next, then) = spec_step(m, event);
            spec_join(spec_record(action), spec_run(next, then, env, (moves - 1) as nat))
        },
    }
}

/// No run takes more moves than this.
pub open spec fn spec_max_moves() -> nat {
    7
}

/// The run on note `tab_index` from the start, against `env`.
pub open spec fn spec_whole_run(tab_index: usize, local_exists: bool, env: Environment) -> Run {
    spec_run(spec_start(tab_index, local_exists), ReconcileActionView::ProbeMetadata, env, spec_max_moves())
}

/// The local modification time that a run works with.
pub open spec fn spec_local_seen(local_exists: bool, env: Environment) -> u64 {
    if local_exists {
        spec_local_modified(env.stat)
    } else {
        0
    }
}

/// The part of a run that follows once both modification times are known
/// ends with an outcome that carries them, asks for no probe, transfers in
/// at most one direction and writes at most once.
proof fn lemma_run_after_times(
    m: ReconcilerView,
    local_modified: u64,
    remote: Option<u64>,
    env: Environment,
    moves: nat,
)
    requires
        moves >= 3,
    ensures
        ({
            let (next, then) = crate::reconcile::spec_after_times(m, local_modified, remote);
            let run = spec_run(next, then, env, moves);
            &&& run.outcome matches Some(outcome)
            &&& outcome.status.tab_index == m.tab_index
            &&& outcome.status.local_modified == local_modified
            &&& outcome.status.remote_modified == remote
            &&& !outcome.status.conflict
            &&& outcome.error is Some ==> !outcome.status.synced
            &&& run.metadata_probes == 0
            &&& run.header_probes == 0
            &&& run.downloads + run.uploads <= 1
            &&& run.writes <= run.downloads
        }),
{
    reveal_with_fuel(spec_run, 5);
}

/// The same, for the part of a run that follows once the remote
/// modification time is known.
proof fn lemma_run_after_remote(m: ReconcilerView, remote: Option<u64>, env: Environment, moves: nat)
    requires
        moves >= 4,
    ensures
        ({
            let (next, then) = crate::reconcile::spec_after_remote(m, remote);
            let run = spec_run(next, then, env, moves);
            &&& run.outcome matches Some(outcome)
            &&& outcome.status.tab_index == m.tab_index
            &&& outcome.status.local_modified == spec_local_seen(m.local_exists, env)
            &&& outcome.status.remote_modified == remote
            &&& !outcome.status.conflict
            &&& outcome.error is Some ==> !outcome.status.synced
            &&& run.metadata_probes == 0
            &&& run.header_probes == 0
            &&& run.downloads + run.uploads <= 1
            &&& run.writes <= run.downloads
        }),
{
    reveal_with_fuel(spec_run, 2);
    if m.local_exists {
        let waiting = ReconcilerView { phase: crate::reconcile::PhaseView::AwaitStat { remote }, ..m };
        lemma_run_after_times(
            waiting,
            spec_local_modified(env.stat),
            remote,
            env,
            (moves - 1) as nat,
        );
    } else {
        lemma_run_after_times(m, 0, remote, env, moves);
    }
}

/// Every run ends with an outcome for the note it was started on, which
/// carries the two modification times as the run came to know them and
/// never flags a conflict. An outcome with an error is unsynced. The
/// metadata probe is asked for exactly once; the header probe is asked for
/// once where the metadata probe failed, and not at all where it succeeded.
/// A run transfers in at most one direction, and writes the local file only
/// after a download, at most once.
pub proof fn law_run_finishes(tab_index: usize, local_exists: bool, env: Environment)
    ensures
        ({
            let run = spec_whole_run(tab_index, local_exists, env);
            &&& run.outcome matches Some(outcome)
            &&& outcome.status.tab_index == tab_index
            &&& outcome.status.local_modified == spec_local_seen(local_exists, env)
            &&& outcome.status.remote_modified == env.remote_seen()
            &&& !outcome.status.conflict
            &&& outcome.error is Some ==> !outcome.status.synced
            &&& run.metadata_probes == 1
            &&& run.header_probes == (if env.metadata is Err {
                1nat
            } else {
                0nat
            })
            &&& run.downloads + run.uploads <= 1
            &&& run.writes <= run.downloads
        }),
{
    reveal_with_fuel(spec_run, 3);
    let begun = spec_start(tab_index, local_exists);
    match env.metadata {
        Ok(remote) => {
            lemma_run_after_remote(begun, remote, env, 6);
        },
        Err(_) => {
            let waiting = ReconcilerView { phase: crate::reconcile::PhaseView::AwaitHeader, ..begun };
            lemma_run_after_remote(waiting, env.remote_seen(), env, 5);
        },
    }
}

/// Where the note exists on neither side, the run transfers nothing,
/// writes nothing, and ends synced.
pub proof fn law_nothing_to_sync(tab_index: usize, env: Environment)
    requires
        env.remote_seen() is None,
    ensures
        ({
            let run = spec_whole_run(tab_index, false, env);
            &&& run.uploads == 0
            &&& run.downloads == 0
            &&& run.writes == 0
            &&& run.outcome matches Some(outcome)
            &&& outcome.status.synced
            &&& outcome.error is None
        }),
{
    reveal_with_fuel(spec_run, 8);
}

/// Where the note exists locally and not on the server, and the local copy
/// can be read, the run uploads exactly once, and what it uploads is the
/// local content. It downloads nothing and writes nothing. The note ends
/// synced exactly if the upload succeeds.
pub proof fn law_upload_when_remote_absent(tab_index: usize, env: Environment)
    requires
        env.remote_seen() is None,
        env.local_read is Ok,
    ensures
        ({
            let run = spec_whole_run(tab_index, true, env);
            &&& run.uploads == 1
            &&& run.uploaded == Some(env.local_read->Ok_0)
            &&& run.downloads == 0
            &&& run.writes == 0
            &&& run.outcome matches Some(outcome)
            &&& outcome.status.synced == (env.upload is Ok)
            &&& outcome.error is None
        }),
{
    reveal_with_fuel(spec_run, 8);
}

/// Where the local copy cannot be read for an upload, nothing is uploaded
/// and the note ends unsynced with a file-system error.
pub proof fn law_unreadable_local_stops_upload(tab_index: usize, env: Environment)
    requires
        env.remote_seen() is None,
        env.local_read is Err,
    ensures
        ({
            let run = spec_whole_run(tab_index, true, env);
            &&& run.uploads == 0
            &&& run.downloads == 0
            &&& run.outcome matches Some(outcome)
            &&& !outcome.status.synced
            &&& outcome.error == Some(spec_read_failure(env.local_read->Err_0))
        }),
{
    reveal_with_fuel(spec_run, 8);
}

/// Where the note exists on the server and not locally, the run downloads
/// exactly once and uploads nothing. Where the download succeeds, the local
/// file is written exactly once, with the downloaded content; the note ends
/// synced exactly if that write succeeds. Where the download fails, nothing
/// is written and the note ends unsynced.
pub proof fn law_download_when_local_absent(tab_index: usize, env: Environment)
    requires
        env.remote_seen() is Some,
    ensures
        ({
            let run = spec_whole_run(tab_index, false, env);
            &&& run.downloads == 1
            &&& run.uploads == 0
            &&& run.outcome matches Some(outcome)
            &&& match env.download {
                Ok(content) => {
                    &&& run.writes == 1
                    &&& run.written == Some(content)
                    &&& outcome.status.synced == (env.local_write is Ok)
                    &&& outcome.error == match env.local_write {
                        Ok(_) => None,
                        Err(detail) => Some(spec_write_failure(detail)),
                    }
                },
                Err(_) => run.writes == 0 && !outcome.status.synced && outcome.error is None,
            }
        }),
{
    reveal_with_fuel(spec_run, 8);
}

/// Where both copies exist and their modification times differ by no more
/// than the tolerance, whichever is the larger, the run transfers nothing,
/// writes nothing, and ends synced.
pub proof fn law_within_tolerance(tab_index: usize, env: Environment)
    requires
        env.remote_seen() matches Some(remote) && ({
            let local = spec_local_modified(env.stat);
            local - remote <= TIME_TOLERANCE_SECS && remote - local <= TIME_TOLERANCE_SECS
        }),
    ensures
        ({
            let run = spec_whole_run(tab_index, true, env);
            &&& run.uploads == 0
            &&& run.downloads == 0
            &&& run.writes == 0
            &&& run.outcome matches Some(outcome)
            &&& outcome.status.synced
            &&& outcome.error is None
        }),
{
    reveal_with_fuel(spec_run, 8);
}

/// Where both copies exist and the remote one is newer by more than the
/// tolerance, the run downloads exactly once and uploads nothing. Where the
/// downloaded content equals the local content, the local file is not
/// written and the note ends synced. Where it differs from the local
/// content, or the local copy cannot be read and the download is not
/// empty, the local file is written once with the downloaded content.
pub proof fn law_download_when_remote_newer(tab_index: usize, env: Environment)
    requires
        env.remote_seen() matches Some(remote) && remote - spec_local_modified(env.stat)
            > TIME_TOLERANCE_SECS,
    ensures
        ({
            let run = spec_whole_run(tab_index, true, env);
            let local = match env.local_read {
                Ok(content) => content,
                Err(_) => Seq::<char>::empty(),
            };
            &&& run.downloads == 1
            &&& run.uploads == 0
            &&& run.outcome matches Some(outcome)
            &&& match env.download {
                Ok(content) => if content == local {
                    &&& run.writes == 0
                    &&& run.written is None
                    &&& outcome.status.synced
                    &&& outcome.error is None
                } else {
                    &&& run.writes == 1
                    &&& run.written == Some(content)
                    &&& outcome.status.synced == (env.local_write is Ok)
                },
                Err(_) => run.writes == 0 && !outcome.status.synced && outcome.error is None,
            }
        }),
{
    reveal_with_fuel(spec_run, 8);
}

/// Where both copies exist and the local one is newer by more than the
/// tolerance, and the local copy can be read, the run uploads exactly once,
/// and what it uploads is the local content. It downloads nothing and
/// writes nothing. The note ends synced exactly if the upload succeeds.
pub proof fn law_upload_when_local_newer(tab_index: usize, env: Environment)
    requires
        env.remote_seen() matches Some(remote) && spec_local_modified(env.stat) - remote
            > TIME_TOLERANCE_SECS,
        env.local_read is Ok,
    ensures
        ({
            let run = spec_whole_run(tab_index, true, env);
            &&& run.uploads == 1
            &&& run.uploaded == Some(env.local_read->Ok_0)
            &&& run.downloads == 0
            &&& run.writes == 0
            &&& run.outcome matches Some(outcome)
            &&& outcome.status.synced == (env.upload is Ok)
        }),
{
    reveal_with_fuel(spec_run, 8);
}

/// Whether `env` makes a run on a note upload it: the local copy exists and
/// the remote one is absent or older by more than the tolerance.
pub open spec fn spec_forces_upload(env: Environment) -> bool {
    match env.remote_seen() {
        None => true,
        Some(remote) => spec_local_modified(env.stat) - remote > TIME_TOLERANCE_SECS,
    }
}

/// Whether `env` makes a run on a note download it.
pub open spec fn spec_forces_download(local_exists: bool, env: Environment) -> bool {
    env.remote_seen() matches Some(remote) && (!local_exists || remote - spec_local_modified(
        env.stat,
    ) > TIME_TOLERANCE_SECS)
}

/// The local content after a run: what the run wrote, where it wrote with
/// success; else what was there before, if anything was.
pub open spec fn spec_local_content_after(local_exists: bool, env: Environment, run: Run) -> Option<
    Seq<char>,
> {
    if run.written is Some && env.local_write is Ok {
        run.written
    } else if local_exists && env.local_read is Ok {
        Some(env.local_read->Ok_0)
    } else {
        None
    }
}

/// Round trip. Take a first run that is made to upload a note whose local
/// content is `content`, and a second run, on any machine, that is made to
/// download the note and to which the server hands what the first run
/// uploaded. Then the first run uploads `content` unchanged, and after the
/// second run the local content is `content`, provided the local file can
/// be read and written there.
pub proof fn law_round_trip(
    tab_index: usize,
    content: Seq<char>,
    sender: Environment,
    receiver_has_copy: bool,
    receiver: Environment,
)
    requires
        spec_forces_upload(sender),
        sender.local_read == Ok::<Seq<char>, Seq<char>>(content),
        spec_forces_download(receiver_has_copy, receiver),
        receiver.download is Ok,
        Some(receiver.download->Ok_0) == spec_whole_run(tab_index, true, sender).uploaded,
        receiver.local_write is Ok,
        receiver_has_copy ==> receiver.local_read is Ok,
    ensures
        spec_whole_run(tab_index, true, sender).uploaded == Some(content),
        ({
            let run = spec_whole_run(tab_index, receiver_has_copy, receiver);
            &&& spec_local_content_after(receiver_has_copy, receiver, run) == Some(content)
            &&& run.outcome matches Some(outcome)
            &&& outcome.status.synced
        }),
{
    if sender.remote_seen() is None {
        law_upload_when_remote_absent(tab_index, sender);
    } else {
        law_upload_when_local_newer(tab_index, sender);
    }
    if receiver_has_copy {
        law_download_when_remote_newer(tab_index, receiver);
    } else {
        law_download_when_local_absent(tab_index, receiver);
    }
}

} // verus!
