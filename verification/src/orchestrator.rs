//! One pass over all notes: making sure that the sync folder exists, then
//! reconciling note after note and gathering their statuses into a report.
//!
//! Like the reconciler, the orchestrator is a machine. It names what to do
//! next ([`PassAction`]) and is told how it went ([`PassEvent`]).

use crate::client::spec_container_probe_request;
use crate::client::spec_ensure_remote_directory;
use crate::client::spec_remote_directory_created;
use crate::client::ContainerStep;
use crate::client::ContainerStepView;
use crate::client::NextcloudClient;
use crate::error::SyncError;
use crate::error::SyncErrorView;
use crate::http::RemoteRequest;
use crate::http::RemoteRequestView;
use crate::http::Reply;
use crate::http::ReplyView;
use crate::reconcile::Outcome;
use crate::reconcile::OutcomeView;
use crate::types::NextcloudConfigView;
use crate::types::NoteStatus;
use crate::types::SyncStatus;
use crate::types::SyncStatusView;
use crate::types::NOTE_COUNT;
use std::collections::HashMap;
use vstd::prelude::*;

verus! {

/// What the driver reports back to the orchestrator.
#[derive(Debug)]
pub enum PassEvent {
    /// How the backup of the local notes ended: where the archive lies, or
    /// why none was made.
    BackedUp(Result<String, String>),
    /// The reply to the probe of the sync folder.
    ContainerProbed(Reply),
    /// The reply to the creation of the sync folder.
    ContainerCreated(Reply),
    /// How reconciling the note that was asked for ended.
    Note(Outcome),
}

/// The mathematical content of a [`PassEvent`].
pub enum PassEventView {
    BackedUp(Result<Seq<char>, Seq<char>>),
    ContainerProbed(ReplyView),
    ContainerCreated(ReplyView),
    Note(OutcomeView),
}

impl View for PassEvent {
    type V = PassEventView;

    open spec fn view(&self) -> PassEventView {
        match self {
            PassEvent::BackedUp(Ok(path)) => PassEventView::BackedUp(Ok(path@)),
            PassEvent::BackedUp(Err(reason)) => PassEventView::BackedUp(Err(reason@)),
            PassEvent::ContainerProbed(reply) => PassEventView::ContainerProbed(reply@),
            PassEvent::ContainerCreated(reply) => PassEventView::ContainerCreated(reply@),
            PassEvent::Note(outcome) => PassEventView::Note(outcome@),
        }
    }
}

/// What the orchestrator asks the driver to do next.
#[derive(Debug)]
pub enum PassAction {
    /// Make a backup of the local notes.
    Backup,
    /// Send this request, which probes or creates the sync folder.
    Send(RemoteRequest),
    /// Reconcile the note with this index.
    Reconcile(usize),
    /// The pass is over: this is its report.
    Finish(SyncStatus),
    /// The pass is given up: the sync folder is out of reach.
    Abort(SyncError),
    /// The event answers nothing that was asked; the machine did not move.
    Unexpected,
}

/// The mathematical content of a [`PassAction`].
pub enum PassActionView {
    Backup,
    Send(RemoteRequestView),
    Reconcile(usize),
    Finish(SyncStatusView),
    Abort(SyncErrorView),
    Unexpected,
}

impl View for PassAction {
    type V = PassActionView;

    open spec fn view(&self) -> PassActionView {
        match self {
            PassAction::Backup => PassActionView::Backup,
            PassAction::Send(request) => PassActionView::Send(request@),
            PassAction::Reconcile(index) => PassActionView::Reconcile(*index),
            PassAction::Finish(report) => PassActionView::Finish(report@),
            PassAction::Abort(e) => PassActionView::Abort(e@),
            PassAction::Unexpected => PassActionView::Unexpected,
        }
    }
}

/// Where a pass stands.
#[derive(Clone, Copy, Debug, PartialEq, Eq, Structural)]
pub enum PassPhase {
    /// The backup of the local notes is under way.
    AwaitBackup,
    /// The probe of the sync folder is under way.
    AwaitProbe,
    /// The creation of the sync folder is under way.
    AwaitCreate,
    /// The note with this index is being reconciled.
    AwaitNote(usize),
    /// The pass is over or was given up.
    Finished,
}

/// The machine that runs one pass.
#[derive(Debug)]
pub struct Orchestrator {
    phase: PassPhase,
    statuses: HashMap<usize, NoteStatus>,
}

/// The mathematical content of an [`Orchestrator`].
pub struct OrchestratorView {
    /// Where the pass stands.
    pub phase: PassPhase,
    /// The statuses gathered so far, by the index of their note.
    pub statuses: Map<usize, NoteStatus>,
}

/// Whether `statuses` holds exactly one status for each of the first
/// `count` notes, each filed under its own index, and nothing else.
pub open spec fn spec_covers(statuses: Map<usize, NoteStatus>, count: usize) -> bool {
    &&& forall|i: usize| statuses.dom().contains(i) <==> i < count
    &&& forall|i: usize| i < count ==> (#[trigger] statuses[i]).tab_index == i
}

impl OrchestratorView {
    /// What holds of a pass at every moment: while a note is being
    /// reconciled, the statuses of exactly the notes before it are in; else
    /// none is held.
    pub open spec fn wf(self) -> bool {
        match self.phase {
            PassPhase::AwaitNote(index) => index < NOTE_COUNT && spec_covers(self.statuses, index),
            _ => self.statuses == Map::<usize, NoteStatus>::empty(),
        }
    }
}

impl View for Orchestrator {
    type V = OrchestratorView;

    closed spec fn view(&self) -> OrchestratorView {
        OrchestratorView { phase: self.phase, statuses: self.statuses@ }
    }
}

/// The pass as it starts.
pub open spec fn spec_pass_start() -> OrchestratorView {
    OrchestratorView { phase: PassPhase::AwaitBackup, statuses: Map::empty() }
}

/// The pass once it is over or was given up.
pub open spec fn spec_pass_end() -> OrchestratorView {
    OrchestratorView { phase: PassPhase::Finished, statuses: Map::empty() }
}

/// The report of a pass that ended at `now` with these statuses.
pub open spec fn spec_report(statuses: Map<usize, NoteStatus>, now: u64) -> SyncStatusView {
    SyncStatusView { last_sync: Some(now), syncing: false, error: None, notes_status: statuses }
}

/// The pass turns to its first note.
pub open spec fn spec_first_note() -> (OrchestratorView, PassActionView) {
    (
        OrchestratorView { phase: PassPhase::AwaitNote(0), statuses: Map::empty() },
        PassActionView::Reconcile(0),
    )
}

/// One move of a pass: the state after `event`, and what to do next.
///
/// The pass goes on to the sync folder however the backup ended: a backup
/// is a safety net, not a condition. A sync folder that is missing is
/// created; one that can neither be found nor created ends the pass with
/// the error. The status of each note is filed whatever it says, and the
/// next note follows; after the last note the report is made, with `now` as
/// the time of the pass. An event that answers nothing that was asked, or
/// an outcome for another note than the one asked for, leaves the machine
/// as it is.
pub open spec fn spec_pass_step(
    m: OrchestratorView,
    config: NextcloudConfigView,
    event: PassEventView,
    now: u64,
) -> (OrchestratorView, PassActionView) {
    match (m.phase, event) {
        (PassPhase::AwaitBackup, PassEventView::BackedUp(_)) => (
            OrchestratorView { phase: PassPhase::AwaitProbe, ..m },
            PassActionView::Send(spec_container_probe_request(config)),
        ),
        (PassPhase::AwaitProbe, PassEventView::ContainerProbed(reply)) => {
            match spec_ensure_remote_directory(config, reply) {
                ContainerStepView::Ready => spec_first_note(),
                ContainerStepView::Create(request) => (
                    OrchestratorView { phase: PassPhase::AwaitCreate, ..m },
                    PassActionView::Send(request),
                ),
                ContainerStepView::Failed(e) => (spec_pass_end(), PassActionView::Abort(e)),
            }
        },
        (PassPhase::AwaitCreate, PassEventView::ContainerCreated(reply)) => {
            match spec_remote_directory_created(reply) {
                Ok(_) => spec_first_note(),
                Err(e) => (spec_pass_end(), PassActionView::Abort(e)),
            }
        },
        (PassPhase::AwaitNote(index), PassEventView::Note(outcome)) => {
            if outcome.status.tab_index != index || index >= NOTE_COUNT {
                (m, PassActionView::Unexpected)
            } else {
                let statuses = m.statuses.insert(index, outcome.status);
                if index + 1 < NOTE_COUNT {
                    (
                        OrchestratorView {
                            phase: PassPhase::AwaitNote((index + 1) as usize),
                            statuses,
                        },
                        PassActionView::Reconcile((index + 1) as usize),
                    )
                } else {
                    (spec_pass_end(), PassActionView::Finish(spec_report(statuses, now)))
                }
            }
        },
        _ => (m, PassActionView::Unexpected),
    }
}

impl Orchestrator {
    #[verifier::type_invariant]
    spec fn inv(self) -> bool {
        self@.wf()
    }

    /// Starts a pass. The first thing to do is the backup of the local
    /// notes.
    pub fn start() -> (begun: (Orchestrator, PassAction))
        ensures
            begun.0@ == spec_pass_start(),
            begun.1@ == PassActionView::Backup,
    {
        (
            Orchestrator { phase: PassPhase::AwaitBackup, statuses: HashMap::new() },
            PassAction::Backup,
        )
    }

    /// Tells where the pass stands.
    pub fn phase(&self) -> (phase: PassPhase)
        ensures
            phase == self@.phase,
            self@.wf(),
    {
        proof {
            use_type_invariant(self);
        }
        self.phase
    }

    fn first_note() -> (moved: (Orchestrator, PassAction))
        ensures
            (moved.0@, moved.1@) == spec_first_note(),
    {
        (
            Orchestrator { phase: PassPhase::AwaitNote(0), statuses: HashMap::new() },
            PassAction::Reconcile(0),
        )
    }

    fn end() -> (ended: Orchestrator)
        ensures
            ended@ == spec_pass_end(),
    {
        Orchestrator { phase: PassPhase::Finished, statuses: HashMap::new() }
    }

    /// Makes one move: takes the answer to the last action and returns the
    /// machine in its new state together with the next action. `now` is the
    /// current time in seconds since the epoch. A report that comes out
    /// holds exactly one status for every note.
    pub fn step(self, client: &NextcloudClient, event: PassEvent, now: u64) -> (moved: (
        Orchestrator,
        PassAction,
    ))
        ensures
            (moved.0@, moved.1@) == spec_pass_step(self@, client@, event@, now),
            moved.1@ matches PassActionView::Finish(report) ==> spec_covers(
                report.notes_status,
                NOTE_COUNT,
            ),
    {
        proof {
            use_type_invariant(&self);
        }
        let phase = self.phase;
        let mut statuses = self.statuses;
        match (phase, event) {
            (PassPhase::AwaitBackup, PassEvent::BackedUp(_)) => (
                Orchestrator { phase: PassPhase::AwaitProbe, statuses },
                PassAction::Send(client.container_probe_request()),
            ),
            (PassPhase::AwaitProbe, PassEvent::ContainerProbed(reply)) => {
                match client.ensure_remote_directory(reply) {
                    ContainerStep::Ready => Orchestrator::first_note(),
                    ContainerStep::Create(request) => (
                        Orchestrator { phase: PassPhase::AwaitCreate, statuses },
                        PassAction::Send(request),
                    ),
                    ContainerStep::Failed(e) => (Orchestrator::end(), PassAction::Abort(e)),
                }
            },
            (PassPhase::AwaitCreate, PassEvent::ContainerCreated(reply)) => {
                match client.remote_directory_created(reply) {
                    Ok(_) => Orchestrator::first_note(),
                    Err(e) => (Orchestrator::end(), PassAction::Abort(e)),
                }
            },
            (PassPhase::AwaitNote(index), PassEvent::Note(outcome)) => {
                if outcome.status.tab_index != index || index >= NOTE_COUNT {
                    (Orchestrator { phase, statuses }, PassAction::Unexpected)
                } else {
                    statuses.insert(index, outcome.status);
                    if index + 1 < NOTE_COUNT {
                        (
                            Orchestrator { phase: PassPhase::AwaitNote(index + 1), statuses },
                            PassAction::Reconcile(index + 1),
                        )
                    } else {
                        let report = SyncStatus {
                            last_sync: Some(now),
                            syncing: false,
                            error: None,
                            notes_status: statuses,
                        };
                        (Orchestrator::end(), PassAction::Finish(report))
                    }
                }
            },
            (phase, _) => (Orchestrator { phase, statuses }, PassAction::Unexpected),
        }
    }
}

impl NextcloudClient {
    /// Begins a pass over all notes against this client's server. The
    /// machine that comes back is driven with [`Orchestrator::step`].
    pub fn sync_all_notes(&self) -> (begun: (Orchestrator, PassAction))
        ensures
            begun.0@ == spec_pass_start(),
            begun.1@ == PassActionView::Backup,
    {
        Orchestrator::start()
    }
}

/// A pass starts in a state of which the invariant holds.
pub proof fn law_pass_starts_well()
    ensures
        spec_pass_start().wf(),
{
}

/// Every move keeps the invariant of a pass, whatever the event. So in
/// every state that a pass can reach, the statuses of exactly the notes
/// that were reconciled so far are held, one for each. A report that comes
/// out of a move holds exactly one status for every note, filed under the
/// note's index, whether or not the notes could be transferred; it carries
/// `now` as the time of the pass, is not under way and holds no error.
pub proof fn law_pass_reports_every_note(
    m: OrchestratorView,
    config: NextcloudConfigView,
    event: PassEventView,
    now: u64,
)
    requires
        m.wf(),
    ensures
        spec_pass_step(m, config, event, now).0.wf(),
        spec_pass_step(m, config, event, now).1 matches PassActionView::Finish(report) ==> {
            &&& spec_covers(report.notes_status, NOTE_COUNT)
            &&& report.last_sync == Some(now)
            &&& !report.syncing
            &&& report.error is None
        },
{
}

/// A backup that fails does not hold up the pass: whether the backup ended
/// with an archive or with a failure, the pass goes on to probe the sync
/// folder, in the same state.
pub proof fn law_backup_never_blocks(
    config: NextcloudConfigView,
    backup: Result<Seq<char>, Seq<char>>,
    now: u64,
)
    ensures
        ({
            let (next, action) = spec_pass_step(
                spec_pass_start(),
                config,
                PassEventView::BackedUp(backup),
                now,
            );
            &&& next == (OrchestratorView { phase: PassPhase::AwaitProbe, statuses: Map::empty() })
            &&& action == PassActionView::Send(spec_container_probe_request(config))
        }),
{
}

/// A note's status goes into the report as the reconciler gave it, also
/// where the note ended unsynced.
pub proof fn law_pass_files_status_unchanged(
    m: OrchestratorView,
    config: NextcloudConfigView,
    outcome: OutcomeView,
    now: u64,
)
    requires
        m.wf(),
        m.phase matches PassPhase::AwaitNote(index) && outcome.status.tab_index == index,
    ensures
        ({
            let index = outcome.status.tab_index;
            let (next, action) = spec_pass_step(m, config, PassEventView::Note(outcome), now);
            match action {
                PassActionView::Finish(report) => report.notes_status[index] == outcome.status,
                PassActionView::Reconcile(following) => following == index + 1
                    && next.statuses[index] == outcome.status,
                _ => false,
            }
        }),
{
}

/// How the outside answers each thing that a pass can ask for.
pub struct PassEnvironment {
    /// How the backup ends.
    pub backup: Result<Seq<char>, Seq<char>>,
    /// The reply to the probe of the sync folder.
    pub probe: ReplyView,
    /// The reply to the creation of the sync folder.
    pub create: ReplyView,
    /// How reconciling each note ends, by the index of the note.
    pub notes: Seq<OutcomeView>,
}

impl PassEnvironment {
    /// There is an outcome for every note, and each is the outcome of the
    /// note under whose index it stands.
    pub open spec fn wf(self) -> bool {
        &&& self.notes.len() == NOTE_COUNT
        &&& forall|i: int| 0 <= i < self.notes.len() ==> (#[trigger] self.notes[i]).status.tab_index == i
    }

    /// Whether the sync folder is there for the pass: it exists, or it is
    /// missing and can be created.
    pub open spec fn container_in_reach(self, config: NextcloudConfigView) -> bool {
        match spec_ensure_remote_directory(config, self.probe) {
            ContainerStepView::Ready => true,
            ContainerStepView::Create(_) => spec_remote_directory_created(self.create) is Ok,
            ContainerStepView::Failed(_) => false,
        }
    }

    /// The event with which the environment answers `action` of a pass that
    /// stands in `phase`; `None` for an action that ends the pass.
    pub open spec fn answer(self, phase: PassPhase, action: PassActionView) -> Option<
        PassEventView,
    > {
        match action {
            PassActionView::Backup => Some(PassEventView::BackedUp(self.backup)),
            PassActionView::Send(_) => if phase == PassPhase::AwaitCreate {
                Some(PassEventView::ContainerCreated(self.create))
            } else {
                Some(PassEventView::ContainerProbed(self.probe))
            },
            PassActionView::Reconcile(index) => if index < self.notes.len() {
                Some(PassEventView::Note(self.notes[index as int]))
            } else {
                None
            },
            PassActionView::Finish(_) => None,
            PassActionView::Abort(_) => None,
            PassActionView::Unexpected => None,
        }
    }
}

/// The action with which the pass of machine `m`, which has just asked for
/// `action`, ends against `env`, after at most `moves` further moves.
pub open spec fn spec_pass_run(
    m: OrchestratorView,
    action: PassActionView,
    config: NextcloudConfigView,
    env: PassEnvironment,
    now: u64,
    moves: nat,
) -> PassActionView
    decreases moves,
{
    match env.answer(m.phase, action) {
        None => action,
        Some(event) => if moves == 0 {
            action
        } else {
            let (next, then) = spec_pass_step(m, config, event, now);
            spec_pass_run(next, then, config, env, now, (moves - 1) as nat)
        },
    }
}

/// No pass takes more moves than this: the backup, the probe and the
/// creation of the sync folder, and one move for each note.
pub open spec fn spec_max_pass_moves() -> nat {
    (NOTE_COUNT + 3) as nat
}

/// The action with which a whole pass ends against `env`.
pub open spec fn spec_whole_pass(
    config: NextcloudConfigView,
    env: PassEnvironment,
    now: u64,
) -> PassActionView {
    spec_pass_run(
        spec_pass_start(),
        PassActionView::Backup,
        config,
        env,
        now,
        spec_max_pass_moves(),
    )
}

/// Whether `statuses` holds, for each of the first `count` notes, the
/// status with which the note ended in `env`.
pub open spec fn spec_files(statuses: Map<usize, NoteStatus>, env: PassEnvironment, count: usize)
    -> bool {
    forall|i: usize| i < count ==> #[trigger] statuses[i] == env.notes[i as int].status
}

/// The rest of a pass that is about to reconcile note `index` ends with a
/// report that covers every note and files each note's own status.
proof fn lemma_pass_run_notes(
    m: OrchestratorView,
    index: usize,
    config: NextcloudConfigView,
    env: PassEnvironment,
    now: u64,
    moves: nat,
)
    requires
        env.wf(),
        m.phase == PassPhase::AwaitNote(index),
        index < NOTE_COUNT,
        spec_covers(m.statuses, index),
        spec_files(m.statuses, env, index),
        moves >= NOTE_COUNT - index,
    ensures
        spec_pass_run(m, PassActionView::Reconcile(index), config, env, now, moves)
            matches PassActionView::Finish(report) && {
            &&& spec_covers(report.notes_status, NOTE_COUNT)
            &&& spec_files(report.notes_status, env, NOTE_COUNT)
            &&& report.last_sync == Some(now)
            &&& !report.syncing
            &&& report.error is None
        },
    decreases NOTE_COUNT - index,
{
    reveal_with_fuel(spec_pass_run, 2);
    let outcome = env.notes[index as int];
    let (next, then) = spec_pass_step(m, config, PassEventView::Note(outcome), now);
    let statuses = m.statuses.insert(index, outcome.status);
    assert(spec_covers(statuses, (index + 1) as usize));
    assert(spec_files(statuses, env, (index + 1) as usize));
    if index + 1 < NOTE_COUNT {
        lemma_pass_run_notes(next, (index + 1) as usize, config, env, now, (moves - 1) as nat);
    }
}

/// Every pass ends, whatever the server and the disk answer. Where the sync
/// folder is there or can be created, the pass ends with a report that
/// holds exactly one status for every note, filed under the note's index:
/// the very status with which reconciling that note ended, synced or not,
/// with or without an error. No status is dropped and none is made up. The
/// report carries `now` as the time of the pass. Where the sync folder is
/// out of reach, the pass is given up and reconciles no note. How the backup
/// ended changes none of this.
pub proof fn law_pass_covers_every_note(
    config: NextcloudConfigView,
    env: PassEnvironment,
    now: u64,
)
    requires
        env.wf(),
    ensures
        match spec_whole_pass(config, env, now) {
            PassActionView::Finish(report) => {
                &&& env.container_in_reach(config)
                &&& spec_covers(report.notes_status, NOTE_COUNT)
                &&& spec_files(report.notes_status, env, NOTE_COUNT)
                &&& report.last_sync == Some(now)
                &&& !report.syncing
                &&& report.error is None
            },
            PassActionView::Abort(_) => !env.container_in_reach(config),
            _ => false,
        },
{
    reveal_with_fuel(spec_pass_run, 4);
    let first = OrchestratorView { phase: PassPhase::AwaitNote(0), statuses: Map::empty() };
    match spec_ensure_remote_directory(config, env.probe) {
        ContainerStepView::Ready => {
            lemma_pass_run_notes(first, 0, config, env, now, 8);
        },
        ContainerStepView::Create(_) => {
            if spec_remote_directory_created(env.create) is Ok {
                lemma_pass_run_notes(first, 0, config, env, now, 7);
            }
        },
        ContainerStepView::Failed(_) => {},
    }
}

} // verus!
