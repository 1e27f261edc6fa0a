use vstd::prelude::*;

use crate::error::PersistError;

verus! {

/// Where an interval persistence stands.
#[derive(Debug, Clone, Copy, PartialEq, Eq, Structural)]
pub enum Phase {
    /// A persist is due, or under way.
    Persisting,
    /// Waiting for the interval to pass.
    Sleeping,
    /// The loop is over.
    Finished,
}

/// What the caller running the loop reports back.
#[derive(Debug, Clone, Copy, PartialEq, Eq)]
pub enum LoopEvent {
    /// A persist was made, with this result.
    Persisted(Result<(), PersistError>),
    /// The interval has passed; `cancelled` tells whether a stop was asked
    /// for meanwhile.
    Woke { cancelled: bool },
}

/// What the caller running the loop is to do next.
#[derive(Debug, Clone, Copy, PartialEq, Eq)]
pub enum LoopAction {
    /// Persist the current value once.
    Persist,
    /// Wait this many nanoseconds.
    Sleep(u64),
    /// Stop, and hand this result to whoever started the loop.
    Stop(Result<(), PersistError>),
}

/// The decisions of persisting a value repeatedly, on a fixed interval.
///
/// An interval of zero asks for a single persist. Any other interval persists,
/// waits, and persists again, until a persist fails or a stop is asked for.
/// The first failure ends the loop and is returned; nothing is retried.
#[derive(Debug, Clone, Copy)]
pub struct PersistLoop {
    interval: u64,
    phase: Phase,
    outcome: Result<(), PersistError>,
}

impl PersistLoop {
    /// The interval between two persists, in nanoseconds.
    pub closed spec fn interval_spec(&self) -> u64 {
        self.interval
    }

    pub closed spec fn phase_spec(&self) -> Phase {
        self.phase
    }

    /// The result the loop ended with, once it is finished.
    pub closed spec fn outcome_spec(&self) -> Result<(), PersistError> {
        self.outcome
    }

    /// The action whose outcome the loop is waiting for.
    pub open spec fn pending(&self) -> LoopAction {
        match self.phase_spec() {
            Phase::Persisting => LoopAction::Persist,
            Phase::Sleeping => LoopAction::Sleep(self.interval_spec()),
            Phase::Finished => LoopAction::Stop(self.outcome_spec()),
        }
    }

    /// A loop whose first action is a persist.
    pub fn new(interval: u64) -> (r: Self)
        ensures
            r.interval_spec() == interval,
            r.phase_spec() == Phase::Persisting,
            r.pending() == LoopAction::Persist,
    {
        PersistLoop { interval, phase: Phase::Persisting, outcome: Ok(()) }
    }

    /// The interval between two persists, in nanoseconds.
    pub fn interval(&self) -> (r: u64)
        ensures
            r == self.interval_spec(),
    {
        self.interval
    }

    pub fn phase(&self) -> (r: Phase)
        ensures
            r == self.phase_spec(),
    {
        self.phase
    }

    /// The action whose outcome the loop is waiting for.
    pub fn next_action(&self) -> (r: LoopAction)
        ensures
            r == self.pending(),
    {
        match self.phase {
            Phase::Persisting => LoopAction::Persist,
            Phase::Sleeping => LoopAction::Sleep(self.interval),
            Phase::Finished => LoopAction::Stop(self.outcome),
        }
    }

    /// Takes in what came of the pending action, and says what to do next.
    ///
    /// An event that does not answer the pending action changes nothing, and
    /// the pending action is asked for again.
    pub fn step(&mut self, event: LoopEvent) -> (r: LoopAction)
        ensures
            final(self).interval_spec() == old(self).interval_spec(),
            r == final(self).pending(),
            match (old(self).phase_spec(), event) {
                (Phase::Persisting, LoopEvent::Persisted(Err(e))) => {
                    &&& final(self).phase_spec() == Phase::Finished
                    &&& r == LoopAction::Stop(Err(e))
                },
                (Phase::Persisting, LoopEvent::Persisted(Ok(()))) => if old(self).interval_spec() == 0 {
                    &&& final(self).phase_spec() == Phase::Finished
                    &&& r == LoopAction::Stop(Ok(()))
                } else {
                    &&& final(self).phase_spec() == Phase::Sleeping
                    &&& r == LoopAction::Sleep(old(self).interval_spec())
                },
                (Phase::Sleeping, LoopEvent::Woke { cancelled }) => if cancelled {
                    &&& final(self).phase_spec() == Phase::Finished
                    &&& r == LoopAction::Stop(Ok(()))
                } else {
                    &&& final(self).phase_spec() == Phase::Persisting
                    &&& r == LoopAction::Persist
                },
                _ => *final(self) == *old(self),
            },
    {
        match (self.phase, event) {
            (Phase::Persisting, LoopEvent::Persisted(Err(e))) => {
                self.phase = Phase::Finished;
                self.outcome = Err(e);
            },
            (Phase::Persisting, LoopEvent::Persisted(Ok(()))) => {
                if self.interval == 0 {
                    self.phase = Phase::Finished;
                    self.outcome = Ok(());
                } else {
                    self.phase = Phase::Sleeping;
                }
            },
            (Phase::Sleeping, LoopEvent::Woke { cancelled }) => {
                if cancelled {
                    self.phase = Phase::Finished;
                    self.outcome = Ok(());
                } else {
                    self.phase = Phase::Persisting;
                }
            },
            _ => {},
        }
        self.next_action()
    }
}

} // verus!
