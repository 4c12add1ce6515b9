//! The background scheduler's decision core: a state machine that cycles
//! forever through sleeping, syncing every feed, and publishing a staleness
//! signal for the feeds view. The driver that owns the thread performs each
//! returned action and feeds the next event back in; the transition itself
//! never depends on whether the sync succeeded, which is what makes the
//! loop resilient — a failed cycle is followed by an ordinary next cycle.

use crate::coordinator::ActiveScreen;
use vstd::prelude::*;

verus! {

/// Seconds between two sync cycles.
pub const SYNC_INTERVAL_SECS: u64 = 300;

/// Where the scheduler stands in its cycle.
#[derive(Debug, Clone, PartialEq)]
pub enum SchedulerPhase {
    Idle,
    Sleeping,
    Running,
}

/// What the driving thread must do before reporting back.
#[derive(Debug, Clone, PartialEq)]
pub enum SchedulerAction {
    /// Sleep for this many seconds.
    Sleep(u64),
    /// Run one pass over all subscribed feeds.
    RunSync,
    /// Tell the coordinator this view's cache is stale.
    MarkStale(ActiveScreen),
}

/// The transition function of the scheduler: `Idle` begins a sleep of the
/// fixed interval, a finished sleep begins a sync, and a finished sync —
/// successful or not — publishes staleness for the feeds view and returns
/// to `Idle`.
pub open spec fn spec_scheduler_step(phase: SchedulerPhase) -> (SchedulerPhase, SchedulerAction) {
    match phase {
        SchedulerPhase::Idle => (
            SchedulerPhase::Sleeping,
            SchedulerAction::Sleep(SYNC_INTERVAL_SECS as u64),
        ),
        SchedulerPhase::Sleeping => (SchedulerPhase::Running, SchedulerAction::RunSync),
        SchedulerPhase::Running => (
            SchedulerPhase::Idle,
            SchedulerAction::MarkStale(ActiveScreen::Feeds),
        ),
    }
}

/// Advances the scheduler by one step. `sync_failed` reports how the last
/// sync ended; the contract says the transition ignores it.
pub fn scheduler_step(phase: &SchedulerPhase, sync_failed: bool) -> (r: (
    SchedulerPhase,
    SchedulerAction,
))
    ensures
        r == spec_scheduler_step(*phase),
{
    match phase {
        SchedulerPhase::Idle => (
            SchedulerPhase::Sleeping,
            SchedulerAction::Sleep(SYNC_INTERVAL_SECS),
        ),
        SchedulerPhase::Sleeping => (SchedulerPhase::Running, SchedulerAction::RunSync),
        SchedulerPhase::Running => (
            SchedulerPhase::Idle,
            SchedulerAction::MarkStale(ActiveScreen::Feeds),
        ),
    }
}

/// Law: from `Idle` the scheduler always completes one full cycle — sleep
/// for the fixed interval, run the sync, mark the feeds view stale — and
/// stands in `Idle` again, whatever each step reported. No outcome of a
/// sync can stop the next cycle.
pub proof fn lemma_scheduler_cycle()
    ensures
        ({
            let s1 = spec_scheduler_step(SchedulerPhase::Idle);
            let s2 = spec_scheduler_step(s1.0);
            let s3 = spec_scheduler_step(s2.0);
            s1.1 == SchedulerAction::Sleep(SYNC_INTERVAL_SECS as u64) && s2.1
                == SchedulerAction::RunSync && s3.1 == SchedulerAction::MarkStale(
                ActiveScreen::Feeds,
            ) && s3.0 == SchedulerPhase::Idle
        }),
{
}

/// Hooks for the hub's long-running background services. The feed reloader
/// is driven through [`scheduler_step`] by a thread the embedding
/// application owns.
pub struct BackgroundServiceManager;

impl BackgroundServiceManager {
    /// Hook for a daily backup service; the hub schedules no backup, so
    /// this does nothing.
    pub fn start_daily_backup() {
    }

    /// Hook for a daily scrape of assistant messages into a single archive;
    /// the hub schedules no scrape, so this does nothing.
    pub fn start_daily_assitant_message_backup_scraper() {
    }
}

} // verus!
