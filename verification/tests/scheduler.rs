use jot_sync::scheduler::SchedulerAction;
use jot_sync::scheduler::SchedulerEvent;
use jot_sync::scheduler::SchedulerPhase;
use jot_sync::scheduler::SyncCommand;
use jot_sync::scheduler::SyncState;
use jot_sync::scheduler::Trigger;
use jot_sync::scheduler::TICK_SECONDS;
use jot_sync::types::NextcloudConfig;

fn settings(auto_sync: bool, sync_on_startup: bool, minutes: u32) -> NextcloudConfig {
    let mut config = NextcloudConfig::default();
    config.auto_sync = auto_sync;
    config.sync_on_startup = sync_on_startup;
    config.sync_interval_minutes = minutes;
    config
}

#[test]
fn timer_ticks_once_a_minute() {
    assert_eq!(TICK_SECONDS, 60);
}

#[test]
fn starts_idle_and_alive() {
    let (state, action) = SyncState::start(&settings(false, false, 30));
    assert_eq!(action, SchedulerAction::Wait);
    assert_eq!(state.phase(), SchedulerPhase::Idle);
    assert!(state.is_running());
    assert_eq!(state.last_sync_attempt(), None);
}

#[test]
fn startup_sync_runs_at_once() {
    let (state, action) = SyncState::start(&settings(false, true, 30));
    assert_eq!(action, SchedulerAction::RunPass(Trigger::Startup));
    assert_eq!(state.phase(), SchedulerPhase::Syncing);
    let (state, action) = state.step(SchedulerEvent::PassCompleted, 12);
    assert_eq!(action, SchedulerAction::Wait);
    assert_eq!(state.phase(), SchedulerPhase::Idle);
    assert_eq!(state.last_sync_attempt(), Some(12));
}

#[test]
fn first_tick_syncs_when_auto_sync_is_on() {
    let (state, _) = SyncState::start(&settings(true, false, 30));
    let (state, action) = state.step(SchedulerEvent::Tick, 60);
    assert_eq!(action, SchedulerAction::RunPass(Trigger::Timer));
    assert_eq!(state.phase(), SchedulerPhase::Syncing);
}

#[test]
fn tick_does_nothing_when_auto_sync_is_off() {
    let (state, _) = SyncState::start(&settings(false, false, 30));
    let (state, action) = state.step(SchedulerEvent::Tick, 1_000_000);
    assert_eq!(action, SchedulerAction::Wait);
    assert_eq!(state.phase(), SchedulerPhase::Idle);
}

#[test]
fn tick_waits_for_the_interval() {
    let (state, _) = SyncState::start(&settings(true, false, 30));
    let (state, _) = state.step(SchedulerEvent::Tick, 0);
    let (state, _) = state.step(SchedulerEvent::PassCompleted, 100);
    assert!(!state.interval_elapsed(100));
    assert!(!state.interval_elapsed(100 + 1799));
    assert!(state.interval_elapsed(100 + 1800));
    let (state, action) = state.step(SchedulerEvent::Tick, 100 + 60);
    assert_eq!(action, SchedulerAction::Wait);
    let (state, action) = state.step(SchedulerEvent::Tick, 100 + 1799);
    assert_eq!(action, SchedulerAction::Wait);
    let (state, action) = state.step(SchedulerEvent::Tick, 100 + 1800);
    assert_eq!(action, SchedulerAction::RunPass(Trigger::Timer));
    assert_eq!(state.phase(), SchedulerPhase::Syncing);
}

#[test]
fn clock_that_ran_backwards_does_not_start_a_pass() {
    let (state, _) = SyncState::start(&settings(true, true, 1));
    let (state, _) = state.step(SchedulerEvent::PassCompleted, 1000);
    let (_, action) = state.step(SchedulerEvent::Tick, 10);
    assert_eq!(action, SchedulerAction::Wait);
}

#[test]
fn interval_of_zero_minutes_syncs_on_every_tick() {
    let (state, _) = SyncState::start(&settings(true, true, 0));
    let (state, _) = state.step(SchedulerEvent::PassCompleted, 1000);
    let (_, action) = state.step(SchedulerEvent::Tick, 1000);
    assert_eq!(action, SchedulerAction::RunPass(Trigger::Timer));
}

#[test]
fn longest_interval_does_not_overflow() {
    let (state, _) = SyncState::start(&settings(true, true, u32::MAX));
    let (state, _) = state.step(SchedulerEvent::PassCompleted, 0);
    assert!(!state.interval_elapsed(u32::MAX as u64 * 60 - 1));
    assert!(state.interval_elapsed(u32::MAX as u64 * 60));
    assert!(state.interval_elapsed(u64::MAX));
}

#[test]
fn sync_command_runs_a_pass_whatever_the_settings() {
    let (state, _) = SyncState::start(&settings(false, false, 30));
    let (state, action) = state.step(SchedulerEvent::Command(SyncCommand::Sync), 5);
    assert_eq!(action, SchedulerAction::RunPass(Trigger::Manual));
    assert_eq!(state.phase(), SchedulerPhase::Syncing);
}

#[test]
fn events_during_a_pass_are_deferred() {
    let (state, _) = SyncState::start(&settings(true, true, 0));
    let (state, action) = state.step(SchedulerEvent::Tick, 60);
    assert_eq!(action, SchedulerAction::Defer);
    let (state, action) = state.step(SchedulerEvent::Command(SyncCommand::Sync), 61);
    assert_eq!(action, SchedulerAction::Defer);
    assert_eq!(state.phase(), SchedulerPhase::Syncing);
    assert_eq!(state.last_sync_attempt(), None);
}

#[test]
fn stop_during_a_pass_waits_for_the_pass() {
    let (state, _) = SyncState::start(&settings(true, true, 30));
    let stop = SchedulerEvent::Command(SyncCommand::Stop);
    let (state, action) = state.step(stop, 10);
    assert_eq!(action, SchedulerAction::Defer);
    assert_eq!(state.phase(), SchedulerPhase::Syncing);
    assert!(state.is_running());

    let (state, action) = state.step(SchedulerEvent::PassCompleted, 20);
    assert_eq!(action, SchedulerAction::Wait);
    assert_eq!(state.last_sync_attempt(), Some(20));

    let (state, action) = state.step(stop, 21);
    assert_eq!(action, SchedulerAction::Exit);
    assert_eq!(state.phase(), SchedulerPhase::Stopped);
    assert!(!state.is_running());

    let (state, action) = state.step(SchedulerEvent::Command(SyncCommand::Sync), 22);
    assert_eq!(action, SchedulerAction::Exit);
    assert_eq!(state.phase(), SchedulerPhase::Stopped);
    let (state, action) = state.step(SchedulerEvent::Tick, 1_000_000);
    assert_eq!(action, SchedulerAction::Exit);
    let (state, action) = state.step(SchedulerEvent::PassCompleted, 1_000_001);
    assert_eq!(action, SchedulerAction::Exit);
    assert_eq!(state.last_sync_attempt(), Some(20));
    assert!(!state.is_running());
}

#[test]
fn stray_completion_changes_nothing() {
    let (state, _) = SyncState::start(&settings(true, false, 30));
    let (state, action) = state.step(SchedulerEvent::PassCompleted, 500);
    assert_eq!(action, SchedulerAction::Wait);
    assert_eq!(state.phase(), SchedulerPhase::Idle);
    assert_eq!(state.last_sync_attempt(), None);
}

#[test]
fn service_is_set_up_from_the_settings() {
    let (state, action) = jot_sync::scheduler::init_sync_service(&settings(true, true, 15));
    assert_eq!(action, SchedulerAction::RunPass(Trigger::Startup));
    assert_eq!(state.phase(), SchedulerPhase::Syncing);
    assert!(state.is_running());
    let (state, action) = jot_sync::scheduler::init_sync_service(&settings(true, false, 15));
    assert_eq!(action, SchedulerAction::Wait);
    assert_eq!(state.phase(), SchedulerPhase::Idle);
}
