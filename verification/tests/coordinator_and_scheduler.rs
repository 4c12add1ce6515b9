//! Staleness coordination and the scheduler's cycle.

use dry_dock::coordinator::{ActiveScreen, SharedViewCoordinator, ViewCoordinator};
use dry_dock::scheduler::{
    scheduler_step, BackgroundServiceManager, SchedulerAction, SchedulerPhase, SYNC_INTERVAL_SECS,
};

#[test]
fn fresh_coordinator_has_no_stale_views() {
    let c = ViewCoordinator::new();
    assert!(!c.is_stale(ActiveScreen::Home));
    assert!(!c.is_stale(ActiveScreen::Feeds));
    assert!(!c.is_stale(ActiveScreen::Notes));
    assert!(!c.is_stale(ActiveScreen::Assistant));
    assert!(!c.is_stale(ActiveScreen::Terminal));
    assert!(!c.is_stale(ActiveScreen::Bookmarks));
}

#[test]
fn repeated_marks_leave_the_key_stale() {
    // Any number of marks, interleaved over several keys: the marked key
    // reads stale afterward and unrelated keys are untouched.
    let mut c = ViewCoordinator::new();
    for _ in 0..100 {
        c.mark_stale(ActiveScreen::Feeds);
        c.mark_stale(ActiveScreen::Notes);
    }
    assert!(c.is_stale(ActiveScreen::Feeds));
    assert!(c.is_stale(ActiveScreen::Notes));
    assert!(!c.is_stale(ActiveScreen::Bookmarks));
}

#[test]
fn clearing_resets_only_the_named_view() {
    let mut c = ViewCoordinator::new();
    c.mark_stale(ActiveScreen::Feeds);
    c.mark_stale(ActiveScreen::Bookmarks);
    c.clear_stale(ActiveScreen::Feeds);
    assert!(!c.is_stale(ActiveScreen::Feeds));
    assert!(c.is_stale(ActiveScreen::Bookmarks));
}

#[test]
fn scheduler_cycles_sleep_sync_publish() {
    let (s1, a1) = scheduler_step(&SchedulerPhase::Idle, false);
    assert_eq!(s1, SchedulerPhase::Sleeping);
    assert_eq!(a1, SchedulerAction::Sleep(SYNC_INTERVAL_SECS));
    let (s2, a2) = scheduler_step(&s1, false);
    assert_eq!(s2, SchedulerPhase::Running);
    assert_eq!(a2, SchedulerAction::RunSync);
    let (s3, a3) = scheduler_step(&s2, false);
    assert_eq!(s3, SchedulerPhase::Idle);
    assert_eq!(a3, SchedulerAction::MarkStale(ActiveScreen::Feeds));
}

#[test]
fn scheduler_ignores_the_sync_outcome() {
    // A failed sync is followed by exactly the same transitions as a
    // successful one: the loop is resilient by construction.
    let (ok_state, ok_action) = scheduler_step(&SchedulerPhase::Running, false);
    let (failed_state, failed_action) = scheduler_step(&SchedulerPhase::Running, true);
    assert_eq!(ok_state, failed_state);
    assert_eq!(ok_action, failed_action);
}

#[test]
fn interval_is_five_minutes() {
    assert_eq!(SYNC_INTERVAL_SECS, 300);
}

#[test]
fn background_hooks_do_nothing() {
    BackgroundServiceManager::start_daily_backup();
    BackgroundServiceManager::start_daily_assitant_message_backup_scraper();
}

#[test]
fn shared_coordinator_serializes_marking_and_reading() {
    let shared = SharedViewCoordinator::new();
    assert!(!shared.is_stale(ActiveScreen::Feeds));
    for _ in 0..50 {
        shared.mark_stale(ActiveScreen::Feeds);
    }
    assert!(shared.is_stale(ActiveScreen::Feeds));
    assert!(!shared.is_stale(ActiveScreen::Notes));
    shared.clear_stale(ActiveScreen::Feeds);
    assert!(!shared.is_stale(ActiveScreen::Feeds));
}
