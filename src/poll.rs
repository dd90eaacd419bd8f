use crate::grade::Grade;
use crate::snapshot::{copy_grades, delta_of, diff, records, same_records};
use vstd::prelude::*;

verus! {

/// Where a polling cycle stands.
#[derive(Debug, Clone, Copy, PartialEq, Eq, Structural)]
pub enum Phase {
    /// Before the first cycle.
    Idle,
    SpawningDriver,
    LoggingIn,
    Scraping,
    Notifying,
    Persisting,
    /// Between two cycles; a failed cycle comes here directly.
    Sleeping,
    /// A termination signal arrived; nothing follows.
    Stopped,
}

/// What the outside world reports back to the controller.
#[derive(Debug)]
pub enum Event {
    /// The interval is over (or the process just started): begin a cycle.
    Wake,
    /// The browser driver runs.
    DriverReady,
    /// The login form was filled in and sent.
    LoggedIn,
    /// The scrape finished with these records.
    Scraped(Vec<Grade>),
    /// Starting the driver, logging in or scraping failed.
    StepFailed,
    /// The notification was dispatched; `true` when every send succeeded.
    Sent(bool),
    /// The snapshot was written; `true` when the write succeeded.
    Saved(bool),
    /// A termination signal.
    Signal,
}

/// What the controller asks the outside world to do next.
#[derive(Debug)]
pub enum Action {
    SpawnDriver,
    Login,
    Scrape,
    /// Mail these new records to every recipient.
    Notify(Vec<Grade>),
    /// Write this snapshot to storage.
    Persist(Vec<Grade>),
    /// Tear the driver down and wait for the interval.
    Sleep,
    /// Kill the driver and exit.
    Shutdown,
    /// The event does not apply in the current phase.
    Nothing,
}

/// The decisions of the polling loop: it owns the last known snapshot.
pub struct Controller {
    pub phase: Phase,
    /// The records last persisted (or loaded at start).
    pub snapshot: Vec<Grade>,
    /// The records of the current cycle's scrape, waiting to be persisted.
    pub pending: Vec<Grade>,
}

/// Whether `e` moves a controller in phase `p`.
pub open spec fn accepts(p: Phase, e: Event) -> bool {
    match e {
        Event::Signal => true,
        Event::Wake => p == Phase::Idle || p == Phase::Sleeping,
        Event::DriverReady => p == Phase::SpawningDriver,
        Event::LoggedIn => p == Phase::LoggingIn,
        Event::Scraped(_) => p == Phase::Scraping,
        Event::StepFailed => p == Phase::SpawningDriver || p == Phase::LoggingIn || p
            == Phase::Scraping,
        Event::Sent(_) => p == Phase::Notifying,
        Event::Saved(_) => p == Phase::Persisting,
    }
}

/// The phase after `e`.
pub open spec fn next_phase(c: Controller, e: Event) -> Phase {
    if !accepts(c.phase, e) {
        c.phase
    } else {
        match e {
            Event::Signal => Phase::Stopped,
            Event::Wake => Phase::SpawningDriver,
            Event::DriverReady => Phase::LoggingIn,
            Event::LoggedIn => Phase::Scraping,
            Event::Scraped(v) => if same_records(records(c.snapshot@), records(v@)) {
                Phase::Sleeping
            } else {
                Phase::Notifying
            },
            Event::StepFailed => Phase::Sleeping,
            Event::Sent(_) => Phase::Persisting,
            Event::Saved(_) => Phase::Sleeping,
        }
    }
}

/// The snapshot after `e`: a scrape that matches it as a set replaces it, and a
/// successful write installs what was written; nothing else touches it.
pub open spec fn next_snapshot(c: Controller, e: Event) -> Seq<crate::grade::GradeView> {
    if !accepts(c.phase, e) {
        records(c.snapshot@)
    } else {
        match e {
            Event::Scraped(v) => if same_records(records(c.snapshot@), records(v@)) {
                records(v@)
            } else {
                records(c.snapshot@)
            },
            Event::Saved(ok) => if ok {
                records(c.pending@)
            } else {
                records(c.snapshot@)
            },
            _ => records(c.snapshot@),
        }
    }
}

/// The action that goes with entering phase `p` from controller `c` on `e`.
pub open spec fn action_fits(c: Controller, e: Event, p: Phase, a: Action) -> bool {
    if !accepts(c.phase, e) {
        a is Nothing
    } else {
        match p {
            Phase::SpawningDriver => a is SpawnDriver,
            Phase::LoggingIn => a is Login,
            Phase::Scraping => a is Scrape,
            Phase::Notifying => match (a, e) {
                (Action::Notify(d), Event::Scraped(v)) => records(d@) == delta_of(
                    records(c.snapshot@),
                    records(v@),
                ),
                _ => false,
            },
            Phase::Persisting => match a {
                Action::Persist(s) => records(s@) == records(c.pending@),
                _ => false,
            },
            Phase::Sleeping => a is Sleep,
            Phase::Stopped => a is Shutdown,
            Phase::Idle => false,
        }
    }
}

/// Mail failure does not block persistence: after a notification, failed or
/// not, the controller asks to write the pending snapshot.
pub proof fn lemma_persist_after_any_send(c: Controller, ok: bool)
    requires
        c.phase == Phase::Notifying,
    ensures
        next_phase(c, Event::Sent(ok)) == Phase::Persisting,
        next_snapshot(c, Event::Sent(ok)) == records(c.snapshot@),
{
}

/// A failed step ends the cycle and leaves the snapshot as it was.
pub proof fn lemma_failure_keeps_snapshot(c: Controller)
    requires
        c.phase == Phase::SpawningDriver || c.phase == Phase::LoggingIn || c.phase
            == Phase::Scraping,
    ensures
        next_phase(c, Event::StepFailed) == Phase::Sleeping,
        next_snapshot(c, Event::StepFailed) == records(c.snapshot@),
{
}

impl Controller {
    /// A controller before its first cycle, holding the snapshot loaded at start.
    pub fn new(stored: Vec<Grade>) -> (r: Controller)
        ensures
            r.phase == Phase::Idle,
            r.snapshot == stored,
            r.pending@.len() == 0,
    {
        Controller { phase: Phase::Idle, snapshot: stored, pending: Vec::new() }
    }

    /// Takes one event and says what to do next. A failed step ends the cycle with
    /// the snapshot untouched; a changed scrape is mailed and then persisted
    /// whether or not the mail went out; only a successful write replaces the
    /// snapshot.
    pub fn step(&mut self, e: Event) -> (r: Action)
        ensures
            final(self).phase == next_phase(*old(self), e),
            records(final(self).snapshot@) == next_snapshot(*old(self), e),
            action_fits(*old(self), e, final(self).phase, r),
            final(self).phase == Phase::Notifying && old(self).phase == Phase::Scraping ==> (match e {
                Event::Scraped(v) => records(final(self).pending@) == records(v@),
                _ => false,
            }),
            final(self).phase == Phase::Persisting ==> records(final(self).pending@) == records(
                old(self).pending@,
            ),
    {
        match e {
            Event::Signal => {
                self.phase = Phase::Stopped;
                Action::Shutdown
            },
            Event::Wake => match self.phase {
                Phase::Idle | Phase::Sleeping => {
                    self.phase = Phase::SpawningDriver;
                    Action::SpawnDriver
                },
                _ => Action::Nothing,
            },
            Event::DriverReady => match self.phase {
                Phase::SpawningDriver => {
                    self.phase = Phase::LoggingIn;
                    Action::Login
                },
                _ => Action::Nothing,
            },
            Event::LoggedIn => match self.phase {
                Phase::LoggingIn => {
                    self.phase = Phase::Scraping;
                    Action::Scrape
                },
                _ => Action::Nothing,
            },
            Event::Scraped(v) => match self.phase {
                Phase::Scraping => {
                    let d = diff(&self.snapshot, &v);
                    if d.changed {
                        self.pending = v;
                        self.phase = Phase::Notifying;
                        Action::Notify(d.delta)
                    } else {
                        self.snapshot = v;
                        self.phase = Phase::Sleeping;
                        Action::Sleep
                    }
                },
                _ => Action::Nothing,
            },
            Event::StepFailed => match self.phase {
                Phase::SpawningDriver | Phase::LoggingIn | Phase::Scraping => {
                    self.phase = Phase::Sleeping;
                    Action::Sleep
                },
                _ => Action::Nothing,
            },
            Event::Sent(_) => match self.phase {
                Phase::Notifying => {
                    self.phase = Phase::Persisting;
                    Action::Persist(copy_grades(&self.pending))
                },
                _ => Action::Nothing,
            },
            Event::Saved(ok) => match self.phase {
                Phase::Persisting => {
                    if ok {
                        self.snapshot = copy_grades(&self.pending);
                    }
                    self.phase = Phase::Sleeping;
                    Action::Sleep
                },
                _ => Action::Nothing,
            },
        }
    }
}

} // verus!
