//! The background scheduler: when a pass starts, and when the loop ends.
//!
//! The scheduler is a machine with three states. It is `Idle` between
//! passes, `Syncing` while a pass runs, and `Stopped` for good once it was
//! told to stop. The loop that drives it waits for the timer and for
//! commands, hands each to [`SyncState::step`], and does what the returned
//! [`SchedulerAction`] says.

use crate::types::NextcloudConfig;
use crate::types::NextcloudConfigView;
use vstd::prelude::*;

verus! {

/// How many seconds a minute has.
pub const SECONDS_PER_MINUTE: u64 = 60;

/// How many seconds lie between two ticks of the timer. The timer only
/// sets how often the scheduler looks at the clock; how often a pass starts
/// is set by the sync interval.
pub const TICK_SECONDS: u64 = 60;

/// A command to the scheduler.
#[derive(Clone, Copy, Debug, PartialEq, Eq, Structural)]
pub enum SyncCommand {
    /// Run one pass now.
    Sync,
    /// End the loop for good.
    Stop,
}

/// What makes the scheduler move.
#[derive(Clone, Copy, Debug, PartialEq, Eq, Structural)]
pub enum SchedulerEvent {
    /// The timer fired.
    Tick,
    /// A command arrived.
    Command(SyncCommand),
    /// The pass that was started has ended, with a report or an error.
    PassCompleted,
}

/// Why a pass starts.
#[derive(Clone, Copy, Debug, PartialEq, Eq, Structural)]
pub enum Trigger {
    /// The program has just started.
    Startup,
    /// The sync interval has passed.
    Timer,
    /// A `Sync` command asked for it.
    Manual,
}

/// What the loop does next.
#[derive(Clone, Copy, Debug, PartialEq, Eq, Structural)]
pub enum SchedulerAction {
    /// Run a pass, then report `PassCompleted`.
    RunPass(Trigger),
    /// Wait for the next event.
    Wait,
    /// A pass is under way: keep the event and hand it over again once the
    /// pass has completed.
    Defer,
    /// Leave the loop.
    Exit,
}

/// The state of the scheduler.
#[derive(Clone, Copy, Debug, PartialEq, Eq, Structural)]
pub enum SchedulerPhase {
    /// No pass is running.
    Idle,
    /// A pass is running.
    Syncing,
    /// The loop has ended.
    Stopped,
}

/// What the scheduler keeps between events.
#[derive(Clone, Copy, Debug)]
pub struct SyncState {
    running: bool,
    last_sync_attempt: Option<u64>,
    phase: SchedulerPhase,
    auto_sync: bool,
    sync_interval_minutes: u32,
}

/// The mathematical content of a [`SyncState`].
pub struct SyncStateView {
    /// Whether the loop is alive.
    pub running: bool,
    /// When the last pass ended, on the clock that `now` is read from.
    pub last_sync_attempt: Option<u64>,
    /// The state of the machine.
    pub phase: SchedulerPhase,
    /// Whether passes start on the timer.
    pub auto_sync: bool,
    /// Minutes between two timed passes.
    pub sync_interval_minutes: u32,
}

impl SyncStateView {
    /// The loop is alive exactly as long as the machine is not stopped.
    pub open spec fn wf(self) -> bool {
        self.running == (self.phase != SchedulerPhase::Stopped)
    }

    /// Whether the sync interval has passed at `now`: no pass has ended
    /// yet, or the last one ended at least the interval ago.
    pub open spec fn interval_elapsed(self, now: u64) -> bool {
        match self.last_sync_attempt {
            None => true,
            Some(last) => now - last >= self.sync_interval_minutes * SECONDS_PER_MINUTE,
        }
    }
}

impl View for SyncState {
    type V = SyncStateView;

    closed spec fn view(&self) -> SyncStateView {
        SyncStateView {
            running: self.running,
            last_sync_attempt: self.last_sync_attempt,
            phase: self.phase,
            auto_sync: self.auto_sync,
            sync_interval_minutes: self.sync_interval_minutes,
        }
    }
}

/// The scheduler right after the program has started: idle and alive, with
/// no pass behind it.
pub open spec fn spec_scheduler_initial(config: NextcloudConfigView) -> SyncStateView {
    SyncStateView {
        running: true,
        last_sync_attempt: None,
        phase: SchedulerPhase::Idle,
        auto_sync: config.auto_sync,
        sync_interval_minutes: config.sync_interval_minutes,
    }
}

/// The first move of the scheduler. It begins in its initial, idle state;
/// where the settings ask for a pass at startup it goes on to `Syncing` at
/// once and has that pass run, else it waits.
pub open spec fn spec_scheduler_start(config: NextcloudConfigView) -> (
    SyncStateView,
    SchedulerAction,
) {
    let initial = spec_scheduler_initial(config);
    if config.sync_on_startup {
        (
            SyncStateView { phase: SchedulerPhase::Syncing, ..initial },
            SchedulerAction::RunPass(Trigger::Startup),
        )
    } else {
        (initial, SchedulerAction::Wait)
    }
}

/// One move of the scheduler at time `now`, read in seconds from a clock
/// that never runs backwards.
///
/// Stopped, it stays stopped and sends the loop away. While a pass runs,
/// the only event it takes is the end of that pass, which it notes as the
/// last attempt; every other event is deferred, a `Stop` too, so a pass
/// that has begun runs to its end. Idle, it starts a pass on a `Sync`
/// command, and on a tick where timed passes are on and the interval has
/// passed; on `Stop` it stops.
pub open spec fn spec_scheduler_step(s: SyncStateView, event: SchedulerEvent, now: u64) -> (
    SyncStateView,
    SchedulerAction,
) {
    match s.phase {
        SchedulerPhase::Stopped => (s, SchedulerAction::Exit),
        SchedulerPhase::Syncing => match event {
            SchedulerEvent::PassCompleted => (
                SyncStateView {
                    phase: SchedulerPhase::Idle,
                    last_sync_attempt: Some(now),
                    ..s
                },
                SchedulerAction::Wait,
            ),
            _ => (s, SchedulerAction::Defer),
        },
        SchedulerPhase::Idle => match event {
            SchedulerEvent::Tick => if !s.running {
                (SyncStateView { phase: SchedulerPhase::Stopped, ..s }, SchedulerAction::Exit)
            } else if s.auto_sync && s.interval_elapsed(now) {
                (
                    SyncStateView { phase: SchedulerPhase::Syncing, ..s },
                    SchedulerAction::RunPass(Trigger::Timer),
                )
            } else {
                (s, SchedulerAction::Wait)
            },
            SchedulerEvent::Command(SyncCommand::Sync) => (
                SyncStateView { phase: SchedulerPhase::Syncing, ..s },
                SchedulerAction::RunPass(Trigger::Manual),
            ),
            SchedulerEvent::Command(SyncCommand::Stop) => (
                SyncStateView { phase: SchedulerPhase::Stopped, running: false, ..s },
                SchedulerAction::Exit,
            ),
            SchedulerEvent::PassCompleted => (s, SchedulerAction::Wait),
        },
    }
}

impl SyncState {
    #[verifier::type_invariant]
    spec fn inv(self) -> bool {
        self@.wf()
    }

    /// Starts the scheduler with the settings as they are when the program
    /// starts.
    pub fn start(config: &NextcloudConfig) -> (begun: (SyncState, SchedulerAction))
        ensures
            (begun.0@, begun.1) == spec_scheduler_start(config@),
    {
        if config.sync_on_startup {
            (
                SyncState {
                    running: true,
                    last_sync_attempt: None,
                    phase: SchedulerPhase::Syncing,
                    auto_sync: config.auto_sync,
                    sync_interval_minutes: config.sync_interval_minutes,
                },
                SchedulerAction::RunPass(Trigger::Startup),
            )
        } else {
            (
                SyncState {
                    running: true,
                    last_sync_attempt: None,
                    phase: SchedulerPhase::Idle,
                    auto_sync: config.auto_sync,
                    sync_interval_minutes: config.sync_interval_minutes,
                },
                SchedulerAction::Wait,
            )
        }
    }

    /// Tells whether the loop is alive.
    pub fn is_running(&self) -> (running: bool)
        ensures
            running == self@.running,
            self@.wf(),
    {
        proof {
            use_type_invariant(self);
        }
        self.running
    }

    /// Tells the state of the machine.
    pub fn phase(&self) -> (phase: SchedulerPhase)
        ensures
            phase == self@.phase,
    {
        self.phase
    }

    /// Tells when the last pass ended.
    pub fn last_sync_attempt(&self) -> (last: Option<u64>)
        ensures
            last == self@.last_sync_attempt,
    {
        self.last_sync_attempt
    }

    /// Tells whether the sync interval has passed at `now`.
    pub fn interval_elapsed(&self, now: u64) -> (elapsed: bool)
        ensures
            elapsed == self@.interval_elapsed(now),
    {
        match self.last_sync_attempt {
            None => true,
            Some(last) => {
                let interval: u64 = (self.sync_interval_minutes as u64) * SECONDS_PER_MINUTE;
                now >= last && now - last >= interval
            },
        }
    }

    /// Makes one move at time `now`.
    pub fn step(self, event: SchedulerEvent, now: u64) -> (moved: (SyncState, SchedulerAction))
        ensures
            (moved.0@, moved.1) == spec_scheduler_step(self@, event, now),
    {
        proof {
            use_type_invariant(&self);
        }
        match self.phase {
            SchedulerPhase::Stopped => (self, SchedulerAction::Exit),
            SchedulerPhase::Syncing => match event {
                SchedulerEvent::PassCompleted => (
                    SyncState {
                        running: self.running,
                        last_sync_attempt: Some(now),
                        phase: SchedulerPhase::Idle,
                        auto_sync: self.auto_sync,
                        sync_interval_minutes: self.sync_interval_minutes,
                    },
                    SchedulerAction::Wait,
                ),
                _ => (self, SchedulerAction::Defer),
            },
            SchedulerPhase::Idle => match event {
                SchedulerEvent::Tick => {
                    if self.auto_sync && self.interval_elapsed(now) {
                        (
                            SyncState {
                                running: self.running,
                                last_sync_attempt: self.last_sync_attempt,
                                phase: SchedulerPhase::Syncing,
                                auto_sync: self.auto_sync,
                                sync_interval_minutes: self.sync_interval_minutes,
                            },
                            SchedulerAction::RunPass(Trigger::Timer),
                        )
                    } else {
                        (self, SchedulerAction::Wait)
                    }
                },
                SchedulerEvent::Command(SyncCommand::Sync) => (
                    SyncState {
                        running: self.running,
                        last_sync_attempt: self.last_sync_attempt,
                        phase: SchedulerPhase::Syncing,
                        auto_sync: self.auto_sync,
                        sync_interval_minutes: self.sync_interval_minutes,
                    },
                    SchedulerAction::RunPass(Trigger::Manual),
                ),
                SchedulerEvent::Command(SyncCommand::Stop) => (
                    SyncState {
                        running: false,
                        last_sync_attempt: self.last_sync_attempt,
                        phase: SchedulerPhase::Stopped,
                        auto_sync: self.auto_sync,
                        sync_interval_minutes: self.sync_interval_minutes,
                    },
                    SchedulerAction::Exit,
                ),
                SchedulerEvent::PassCompleted => (self, SchedulerAction::Wait),
            },
        }
    }
}

/// Sets up the scheduler with the settings as they are when the program
/// starts. The machine that comes back is driven with [`SyncState::step`].
pub fn init_sync_service(config: &NextcloudConfig) -> (begun: (SyncState, SchedulerAction))
    ensures
        (begun.0@, begun.1) == spec_scheduler_start(config@),
{
    SyncState::start(config)
}

/// The scheduler starts alive, and every move keeps it well formed: the
/// loop is alive exactly as long as the machine is not stopped.
pub proof fn law_scheduler_stays_well(
    config: NextcloudConfigView,
    s: SyncStateView,
    event: SchedulerEvent,
    now: u64,
)
    requires
        s.wf(),
    ensures
        spec_scheduler_start(config).0.wf(),
        spec_scheduler_start(config).0.running,
        spec_scheduler_step(s, event, now).0.wf(),
{
}

/// At most one pass is in flight. A pass starts only from `Idle`, and the
/// start puts the machine into `Syncing`; while it is `Syncing` no event
/// starts another pass, and only the end of the pass leaves that state.
pub proof fn law_one_pass_at_a_time(s: SyncStateView, event: SchedulerEvent, now: u64)
    requires
        s.wf(),
    ensures
        ({
            let (next, action) = spec_scheduler_step(s, event, now);
            &&& action is RunPass ==> s.phase == SchedulerPhase::Idle && next.phase
                == SchedulerPhase::Syncing
            &&& s.phase == SchedulerPhase::Syncing ==> !(action is RunPass)
            &&& s.phase == SchedulerPhase::Syncing && event != SchedulerEvent::PassCompleted
                ==> next == s && action == SchedulerAction::Defer
            &&& s.phase == SchedulerPhase::Syncing && event == SchedulerEvent::PassCompleted
                ==> next.phase == SchedulerPhase::Idle && next.last_sync_attempt == Some(now)
        }),
{
}

/// `Stop` ends the loop for good. While a pass runs, `Stop` waits: the
/// machine stays `Syncing` until the pass has completed. Handed over again
/// after that, it stops the machine, and no event moves a stopped machine
/// or starts a pass.
pub proof fn law_stop_is_final(s: SyncStateView, later: SchedulerEvent, now: u64, then: u64)
    requires
        s.wf(),
        s.phase == SchedulerPhase::Syncing,
    ensures
        ({
            let stop = SchedulerEvent::Command(SyncCommand::Stop);
            let (during, deferred) = spec_scheduler_step(s, stop, now);
            let (after, waiting) = spec_scheduler_step(during, SchedulerEvent::PassCompleted, now);
            let (stopped, exit) = spec_scheduler_step(after, stop, now);
            let (still, again) = spec_scheduler_step(stopped, later, then);
            &&& during == s
            &&& deferred == SchedulerAction::Defer
            &&& waiting == SchedulerAction::Wait
            &&& stopped.phase == SchedulerPhase::Stopped
            &&& !stopped.running
            &&& exit == SchedulerAction::Exit
            &&& still == stopped
            &&& again == SchedulerAction::Exit
        }),
{
}

/// A failed pass changes nothing for the loop: the end of a pass is noted
/// the same way whether it brought a report or an error, and the machine is
/// alive and idle afterwards.
pub proof fn law_loop_survives_pass(s: SyncStateView, now: u64)
    requires
        s.wf(),
        s.phase == SchedulerPhase::Syncing,
    ensures
        ({
            let (next, action) = spec_scheduler_step(s, SchedulerEvent::PassCompleted, now);
            &&& next.running
            &&& next.phase == SchedulerPhase::Idle
            &&& action == SchedulerAction::Wait
        }),
{
}

/// On a tick, an idle scheduler starts a pass exactly if timed passes are
/// on and the sync interval has passed.
pub proof fn law_timer_respects_interval(s: SyncStateView, now: u64)
    requires
        s.wf(),
        s.phase == SchedulerPhase::Idle,
    ensures
        spec_scheduler_step(s, SchedulerEvent::Tick, now).1 == (if s.auto_sync
            && s.interval_elapsed(now) {
            SchedulerAction::RunPass(Trigger::Timer)
        } else {
            SchedulerAction::Wait
        }),
{
}

} // verus!
