//! Shared view-staleness coordination: the single source of truth for
//! whether a screen's cached data must be reloaded before its next render.
//! The background scheduler marks views stale; the render loop consults and
//! clears the marks. Marks only accumulate — nothing but an explicit clear
//! unsets one — which is what makes concurrent marking safe to reason
//! about: any interleaving of marks that names a key leaves that key stale.

use vstd::prelude::*;
use vstd::rwlock::{RwLock, RwLockPredicate};

verus! {

/// Every screen of the hub; `Home` is the landing view shown when no
/// dedicated screen is active.
#[derive(Debug, Clone, PartialEq, Eq, Hash)]
pub enum ActiveScreen {
    Home,
    Feeds,
    Notes,
    Assistant,
    Terminal,
    Bookmarks,
}

/// The staleness coordinator: one flag per view.
#[derive(Debug, Clone)]
pub struct ViewCoordinator {
    pub home_stale: bool,
    pub feeds_stale: bool,
    pub notes_stale: bool,
    pub assistant_stale: bool,
    pub terminal_stale: bool,
    pub bookmarks_stale: bool,
}

impl ViewCoordinator {
    /// Whether the view behind `key` is marked stale.
    pub open spec fn spec_is_stale(self, key: ActiveScreen) -> bool {
        match key {
            ActiveScreen::Home => self.home_stale,
            ActiveScreen::Feeds => self.feeds_stale,
            ActiveScreen::Notes => self.notes_stale,
            ActiveScreen::Assistant => self.assistant_stale,
            ActiveScreen::Terminal => self.terminal_stale,
            ActiveScreen::Bookmarks => self.bookmarks_stale,
        }
    }

    /// A coordinator with every view fresh.
    pub fn new() -> (r: Self)
        ensures
            forall|k: ActiveScreen| !r.spec_is_stale(k),
    {
        ViewCoordinator {
            home_stale: false,
            feeds_stale: false,
            notes_stale: false,
            assistant_stale: false,
            terminal_stale: false,
            bookmarks_stale: false,
        }
    }

    /// Marks the named view's cache invalid. Marks accumulate: no other
    /// view's flag changes, and no stale view becomes fresh.
    pub fn mark_stale(&mut self, key: ActiveScreen)
        ensures
            *final(self) == spec_mark(*old(self), key),
            final(self).spec_is_stale(key),
            forall|k: ActiveScreen|
                k != key ==> final(self).spec_is_stale(k) == old(self).spec_is_stale(k),
            forall|k: ActiveScreen|
                old(self).spec_is_stale(k) ==> final(self).spec_is_stale(k),
    {
        match key {
            ActiveScreen::Home => {
                self.home_stale = true;
            },
            ActiveScreen::Feeds => {
                self.feeds_stale = true;
            },
            ActiveScreen::Notes => {
                self.notes_stale = true;
            },
            ActiveScreen::Assistant => {
                self.assistant_stale = true;
            },
            ActiveScreen::Terminal => {
                self.terminal_stale = true;
            },
            ActiveScreen::Bookmarks => {
                self.bookmarks_stale = true;
            },
        }
    }

    /// Whether the named view must reload before its next render.
    pub fn is_stale(&self, key: ActiveScreen) -> (r: bool)
        ensures
            r == self.spec_is_stale(key),
    {
        match key {
            ActiveScreen::Home => self.home_stale,
            ActiveScreen::Feeds => self.feeds_stale,
            ActiveScreen::Notes => self.notes_stale,
            ActiveScreen::Assistant => self.assistant_stale,
            ActiveScreen::Terminal => self.terminal_stale,
            ActiveScreen::Bookmarks => self.bookmarks_stale,
        }
    }

    /// Resets the named view's flag after the render loop has reloaded it.
    pub fn clear_stale(&mut self, key: ActiveScreen)
        ensures
            !final(self).spec_is_stale(key),
            forall|k: ActiveScreen|
                k != key ==> final(self).spec_is_stale(k) == old(self).spec_is_stale(k),
    {
        match key {
            ActiveScreen::Home => {
                self.home_stale = false;
            },
            ActiveScreen::Feeds => {
                self.feeds_stale = false;
            },
            ActiveScreen::Notes => {
                self.notes_stale = false;
            },
            ActiveScreen::Assistant => {
                self.assistant_stale = false;
            },
            ActiveScreen::Terminal => {
                self.terminal_stale = false;
            },
            ActiveScreen::Bookmarks => {
                self.bookmarks_stale = false;
            },
        }
    }
}

/// The coordinator after one mark.
pub open spec fn spec_mark(c: ViewCoordinator, key: ActiveScreen) -> ViewCoordinator {
    match key {
        ActiveScreen::Home => ViewCoordinator { home_stale: true, ..c },
        ActiveScreen::Feeds => ViewCoordinator { feeds_stale: true, ..c },
        ActiveScreen::Notes => ViewCoordinator { notes_stale: true, ..c },
        ActiveScreen::Assistant => ViewCoordinator { assistant_stale: true, ..c },
        ActiveScreen::Terminal => ViewCoordinator { terminal_stale: true, ..c },
        ActiveScreen::Bookmarks => ViewCoordinator { bookmarks_stale: true, ..c },
    }
}

/// The coordinator after a sequence of marks, applied in order.
pub open spec fn apply_marks(c: ViewCoordinator, keys: Seq<ActiveScreen>) -> ViewCoordinator
    decreases keys.len(),
{
    if keys.len() == 0 {
        c
    } else {
        apply_marks(spec_mark(c, keys.first()), keys.drop_first())
    }
}

/// A stale view stays stale under any further marks.
proof fn lemma_apply_marks_monotone(c: ViewCoordinator, keys: Seq<ActiveScreen>, key: ActiveScreen)
    requires
        c.spec_is_stale(key),
    ensures
        apply_marks(c, keys).spec_is_stale(key),
    decreases keys.len(),
{
    if keys.len() > 0 {
        lemma_apply_marks_monotone(spec_mark(c, keys.first()), keys.drop_first(), key);
    }
}

/// Law: after any sequence of marks, in any order and from any starting
/// state, every key that one of the marks named reads stale — a later mark
/// never undoes an earlier one, so interleaved markers cannot lose each
/// other's signals.
pub proof fn lemma_marks_accumulate(
    c: ViewCoordinator,
    keys: Seq<ActiveScreen>,
    key: ActiveScreen,
)
    requires
        exists|i: int| 0 <= i < keys.len() && keys[i] == key,
    ensures
        apply_marks(c, keys).spec_is_stale(key),
    decreases keys.len(),
{
    let w = choose|i: int| 0 <= i < keys.len() && keys[i] == key;
    if w == 0 {
        lemma_apply_marks_monotone(spec_mark(c, keys.first()), keys.drop_first(), key);
    } else {
        assert(keys.drop_first()[w - 1] == key);
        lemma_marks_accumulate(spec_mark(c, keys.first()), keys.drop_first(), key);
    }
}

/// The coordinator as the two execution contexts share it: the map of
/// flags sits behind a verified reader-writer lock, so exactly one context
/// mutates it at a time and a read never observes a half-written entry.
/// The scheduler thread marks views stale through `&self`; the render loop
/// consults and clears them the same way.
pub struct SharedViewCoordinator {
    lock: RwLock<ViewCoordinator, CoordinatorPred>,
}

/// The lock's invariant: any coordinator state is admissible — the lock is
/// there for exclusion, not to constrain the flags.
pub struct CoordinatorPred;

impl RwLockPredicate<ViewCoordinator> for CoordinatorPred {
    open spec fn inv(self, v: ViewCoordinator) -> bool {
        true
    }
}

impl SharedViewCoordinator {
    /// A shared coordinator with every view fresh.
    pub fn new() -> Self {
        SharedViewCoordinator { lock: RwLock::new(ViewCoordinator::new(), Ghost(CoordinatorPred)) }
    }

    /// Marks the named view's cache invalid, under the write lock. What the
    /// flags read afterwards depends on the other context's interleaved
    /// calls; [`lemma_marks_accumulate`] says the mark cannot be lost to
    /// anything but an explicit clear.
    pub fn mark_stale(&self, key: ActiveScreen) {
        let (mut coordinator, handle) = self.lock.acquire_write();
        coordinator.mark_stale(key);
        handle.release_write(coordinator);
    }

    /// Whether the named view must reload, read under a read lock.
    pub fn is_stale(&self, key: ActiveScreen) -> bool {
        let handle = self.lock.acquire_read();
        let stale = handle.borrow().is_stale(key);
        handle.release_read();
        stale
    }

    /// Resets the named view's flag, under the write lock.
    pub fn clear_stale(&self, key: ActiveScreen) {
        let (mut coordinator, handle) = self.lock.acquire_write();
        coordinator.clear_stale(key);
        handle.release_write(coordinator);
    }
}

} // verus!
