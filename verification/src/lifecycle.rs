//! The life of one extension instance.
//!
//! `Loaded -> Instantiated -> Running -> Completed | Failed`: a module is
//! instantiated once and run once. A failure at any step ends the life of
//! that instance and of no other.

use crate::error::HostError;
use vstd::prelude::*;

verus! {

/// Where an instance stands.
#[derive(Clone, Copy, Debug, PartialEq, Eq, Structural)]
pub enum Phase {
    /// The compiled module is at hand; nothing is bound yet.
    Loaded,
    /// The capabilities are bound as imports and the entry point is resolved.
    Instantiated,
    /// The entry point has been invoked and has not returned.
    Running,
    /// The entry point returned.
    Completed,
    /// Resolution failed, a capability failed, or the guest trapped.
    Failed,
}

/// What moves an instance on.
#[derive(Clone, Copy, Debug, PartialEq, Eq, Structural)]
pub enum Event {
    /// The module was instantiated and its exports were resolved.
    Resolved,
    /// The entry point was invoked.
    Started,
    /// The entry point returned.
    Returned,
    /// A step failed.
    Faulted,
}

impl Phase {
    /// The phase that `event` leads to, `None` where the event has no place.
    pub open spec fn spec_next(self, event: Event) -> Option<Phase> {
        match (self, event) {
            (Phase::Loaded, Event::Resolved) => Some(Phase::Instantiated),
            (Phase::Loaded, Event::Faulted) => Some(Phase::Failed),
            (Phase::Instantiated, Event::Started) => Some(Phase::Running),
            (Phase::Running, Event::Returned) => Some(Phase::Completed),
            (Phase::Running, Event::Faulted) => Some(Phase::Failed),
            _ => None,
        }
    }

    /// Whether the life of the instance is over.
    pub open spec fn spec_is_final(self) -> bool {
        self == Phase::Completed || self == Phase::Failed
    }

    /// The phase that `event` leads to, `None` where the event has no place.
    pub fn next(self, event: Event) -> (next: Option<Phase>)
        ensures
            next == self.spec_next(event),
    {
        match (self, event) {
            (Phase::Loaded, Event::Resolved) => Some(Phase::Instantiated),
            (Phase::Loaded, Event::Faulted) => Some(Phase::Failed),
            (Phase::Instantiated, Event::Started) => Some(Phase::Running),
            (Phase::Running, Event::Returned) => Some(Phase::Completed),
            (Phase::Running, Event::Faulted) => Some(Phase::Failed),
            _ => None,
        }
    }

    /// Whether the life of the instance is over.
    pub fn is_final(self) -> (over: bool)
        ensures
            over == self.spec_is_final(),
    {
        match self {
            Phase::Completed => true,
            Phase::Failed => true,
            _ => false,
        }
    }
}

/// What resolving the exports of a fresh instance comes to. The host
/// requires the entry point and a linear memory; where both are missing,
/// the entry point is the one that is named.
pub open spec fn spec_check_exports(has_entry_point: bool, has_memory: bool) -> Result<
    (),
    HostError,
> {
    if !has_entry_point {
        Err(HostError::MissingEntryPoint)
    } else if !has_memory {
        Err(HostError::MissingMemory)
    } else {
        Ok(())
    }
}

/// What resolving the exports of a fresh instance comes to: see
/// [`spec_check_exports`].
pub fn check_exports(has_entry_point: bool, has_memory: bool) -> (resolved: Result<(), HostError>)
    ensures
        resolved == spec_check_exports(has_entry_point, has_memory),
{
    if !has_entry_point {
        Err(HostError::MissingEntryPoint)
    } else if !has_memory {
        Err(HostError::MissingMemory)
    } else {
        Ok(())
    }
}

/// How a run ended, from what the engine said of the call and what the
/// capabilities recorded in the instance's context.
///
/// A recorded failure is the cause of the run's end and is what the run
/// fails with. A call that did not return without any recorded failure is
/// a trap of the guest's own.
pub open spec fn spec_run_outcome(returned: bool, recorded: Option<HostError>) -> Result<
    (),
    HostError,
> {
    match recorded {
        Some(error) => Err(error),
        None => if returned {
            Ok(())
        } else {
            Err(HostError::GuestTrap)
        },
    }
}

/// How a run ended: see [`spec_run_outcome`].
pub fn run_outcome(returned: bool, recorded: Option<HostError>) -> (outcome: Result<
    (),
    HostError,
>)
    ensures
        outcome == spec_run_outcome(returned, recorded),
{
    match recorded {
        Some(error) => Err(error),
        None => if returned {
            Ok(())
        } else {
            Err(HostError::GuestTrap)
        },
    }
}

/// The event that ends a run with `outcome`.
pub open spec fn spec_closing_event(outcome: Result<(), HostError>) -> Event {
    if outcome is Ok {
        Event::Returned
    } else {
        Event::Faulted
    }
}

/// The event that ends a run with `outcome`.
pub fn closing_event(outcome: &Result<(), HostError>) -> (event: Event)
    ensures
        event == spec_closing_event(*outcome),
{
    match outcome {
        Ok(_) => Event::Returned,
        Err(_) => Event::Faulted,
    }
}

/// The phase in which a run that started on an instantiated instance and
/// ended with `outcome` leaves the instance, `None` where an event had no
/// place: which never happens, see [`lemma_a_run_ends`].
pub open spec fn spec_phase_after_run(outcome: Result<(), HostError>) -> Option<Phase> {
    match Phase::Instantiated.spec_next(Event::Started) {
        Some(running) => running.spec_next(spec_closing_event(outcome)),
        None => None,
    }
}

/// A run on an instantiated instance always ends, in `Completed` if it
/// ended well and in `Failed` if it did not.
pub proof fn lemma_a_run_ends(outcome: Result<(), HostError>)
    ensures
        outcome is Ok ==> spec_phase_after_run(outcome) == Some(Phase::Completed),
        outcome is Err ==> spec_phase_after_run(outcome) == Some(Phase::Failed),
{
}

/// Once an instance has completed or failed, nothing moves it again.
pub proof fn lemma_final_phases_stay(phase: Phase, event: Event)
    requires
        phase.spec_is_final(),
    ensures
        phase.spec_next(event) is None,
{
}

/// An instance is run at most once and only after it was instantiated: the
/// only way into `Running` is `Started` on `Instantiated`, and the only way
/// out leads to `Completed` or `Failed`.
pub proof fn lemma_run_happens_once(before: Phase, event: Event)
    ensures
        before.spec_next(event) == Some(Phase::Running) <==> (before == Phase::Instantiated
            && event == Event::Started),
        before == Phase::Running && before.spec_next(event) is Some ==> before.spec_next(
            event,
        )->Some_0.spec_is_final(),
{
}

} // verus!
