//! Steps of an assembly that take care of observers and identifiers.
//!
//! [`Assembly::advance`] is a function of the state and the event alone.
//! [`Assembly::step`] goes with it and does what the library can do by
//! itself: it tells the progress sink of each directory that was bound, and
//! draws the identifier of a template run. Where the sink is closed, a
//! command-line run stops, and a template run goes on without the directory
//! unless its role is mandatory.

use vstd::prelude::*;
use uuid::Uuid;
use crate::assembly::{order, role_at, Action, Assembly, Awaiting, Event, Mode, ROLE_COUNT};
use crate::config::{SyncedDir, UiEvent};
use crate::ids::random_id;
use crate::laws::lemma_mint_step;
use crate::monitor::{monitor_count, monitored, MonitorError};
use crate::roles::Role;

verus! {

impl Assembly {
    /// The role whose binding the assembly waits for.
    pub open spec fn pending_spec(self) -> Option<Role> {
        match self {
            Assembly::Materializing(progress) => match progress.awaiting {
                Awaiting::Binding(place) => if place < ROLE_COUNT {
                    Some(order(progress.plan.mode)[place as int])
                } else {
                    None
                },
                _ => None,
            },
            _ => None,
        }
    }

    pub fn pending(&self) -> (r: Option<Role>)
        ensures
            r == self.pending_spec(),
    {
        match self {
            Assembly::Materializing(progress) => match progress.awaiting {
                Awaiting::Binding(place) => role_at(progress.plan.mode, place),
                _ => None,
            },
            _ => None,
        }
    }

    /// Whether the directory that the assembly waits for gets an observer.
    pub open spec fn observes_spec(self) -> bool {
        match self {
            Assembly::Materializing(progress) => self.pending_spec() matches Some(role)
                && monitored(progress.plan.mode, role),
            _ => false,
        }
    }

    pub fn observes(&self) -> (b: bool)
        ensures
            b == self.observes_spec(),
    {
        match self {
            Assembly::Materializing(progress) => match self.pending() {
                Some(role) => monitored(progress.plan.mode, role),
                None => false,
            },
            _ => false,
        }
    }

    /// The mode of the plan that is being assembled.
    pub open spec fn mode_spec(self) -> Option<Mode> {
        match self {
            Assembly::Materializing(progress) => Some(progress.plan.mode),
            _ => None,
        }
    }

    pub fn mode(&self) -> (r: Option<Mode>)
        ensures
            r == self.mode_spec(),
    {
        match self {
            Assembly::Materializing(progress) => Some(progress.plan.mode),
            _ => None,
        }
    }

    /// What a bound directory counts as when the sink is closed: in a
    /// command-line run it is unobserved, which stops the run; in a template
    /// run it is unbound, which stops the run for a mandatory role only.
    pub open spec fn closed_as(self, seen: Event) -> bool {
        match self.mode_spec() {
            Some(Mode::Cli) => seen == Event::Unobserved,
            _ => seen matches Event::Unbound(cause) && cause@
                == MonitorError::SinkClosed.message_spec(),
        }
    }

    /// Whether `seen` is what a reported event may become once the observer
    /// has been dealt with. A bound directory that gets an observer, in a
    /// run that has a sink, is either marked as observed or, with the sink
    /// closed, what `closed_as` says. Every other event stays as it is.
    pub open spec fn seen_as(self, event: Event, sink: bool, seen: Event) -> bool {
        match event {
            Event::Bound(dir) => if self.observes_spec() && sink {
                ||| seen == Event::Bound(SyncedDir { monitored: true, ..dir })
                ||| self.closed_as(seen)
            } else {
                seen == event
            },
            _ => seen == event,
        }
    }

    /// A step that asks for an identifier, taken on with the identifier
    /// `task_id`; any other step as it is.
    pub open spec fn settle_spec(step: (Assembly, Action), task_id: Uuid) -> (Assembly, Action) {
        if step.1 is Mint {
            step.0.advance_spec(Event::Minted(task_id))
        } else {
            step
        }
    }

    /// Takes the assembly one reported event further, and does on the way
    /// what needs no help from outside: a directory that was bound is
    /// announced to the sink, and the identifier of a template run is drawn
    /// at random once every role is settled. The step that comes back asks
    /// for a queue or a directory, or ends the assembly.
    pub fn step(self, event: Event, sink: &Option<flume::Sender<UiEvent>>) -> (r: (
        Assembly,
        Action,
    ))
        ensures
            exists|seen: Event, task_id: Uuid|
                self.seen_as(event, sink is Some, seen) && r == Assembly::settle_spec(
                    self.advance_spec(seen),
                    task_id,
                ),
            !(r.1 is Mint),
            self.coherent() ==> r.0.coherent(),
            self.wf() ==> r.0.wf(),
            r.1 matches Action::Schedule(config) ==> {
                &&& config.input_queue is Some ==> config.crashes is None
                &&& self.wf() ==> config.wf()
            },
    {
        let observes = self.observes();
        let pending = self.pending();
        let mode = self.mode();
        let seen = match event {
            Event::Bound(dir) => {
                match pending {
                    Some(role) => {
                        if observes {
                            match monitor_count(dir, role, sink) {
                                Ok(dir) => Event::Bound(dir),
                                Err(error) => match mode {
                                    Some(Mode::Cli) => Event::Unobserved,
                                    _ => Event::Unbound(error.message()),
                                },
                            }
                        } else {
                            Event::Bound(dir)
                        }
                    },
                    None => Event::Bound(dir),
                }
            },
            other => other,
        };
        assert(self.seen_as(event, sink is Some, seen));
        let next = self.advance(seen);
        proof {
            lemma_mint_step(self, seen);
        }
        if let Action::Mint = next.1 {
            let task_id = random_id();
            let settled = next.0.advance(Event::Minted(task_id));
            assert(settled == Assembly::settle_spec(self.advance_spec(seen), task_id));
            settled
        } else {
            assert(next == Assembly::settle_spec(self.advance_spec(seen), arbitrary()));
            next
        }
    }
}

} // verus!
