//! What a worker does with each request that reaches its machine.
//!
//! A host runs one worker per machine. Every published event, wrapped in a
//! `ContextEvent`, is broadcast to every worker, which hands each request it
//! receives to `handle_request` and stops once that reports `Stopped`.
use vstd::prelude::*;

use crate::{Error, StateMachine, StateMachineContext};

verus! {

/// The context that a worker hands to its machine: it keeps, in order, the
/// events that the handlers publish, each with its delay, and the worker
/// sends them on once the machine has handled the request.
pub struct WorkerContext<E> {
    pub published: Vec<(u64, E)>,
}

impl<E> WorkerContext<E> {
    /// A context with nothing published yet.
    pub fn new() -> (r: Self)
        ensures
            r.published@ == Seq::<(u64, E)>::empty(),
    {
        WorkerContext { published: Vec::new() }
    }

    /// Hands out what was published so far and forgets it.
    pub fn take_published(&mut self) -> (r: Vec<(u64, E)>)
        ensures
            r@ == old(self).published@,
            final(self).published@ == Seq::<(u64, E)>::empty(),
    {
        let mut out: Vec<(u64, E)> = Vec::new();
        core::mem::swap(&mut out, &mut self.published);
        out
    }
}

impl<E> StateMachineContext<E> for WorkerContext<E> {
    open spec fn published(&self) -> Seq<(u64, E)> {
        self.published@
    }

    fn publish_event(&mut self, e: E) {
        self.published.push((0, e));
    }

    fn publish_delayed_event(&mut self, delay_in_ms: u64, e: E) {
        self.published.push((delay_in_ms, e));
    }
}

/// A request as the host delivers it to every worker.
#[derive(Clone, Debug)]
pub enum ContextEvent<E> {
    /// Bring the machine into its initial state.
    Start,
    /// End the worker's loop.
    Stop,
    /// A domain event for the machine to dispatch.
    Envelope(E),
}

/// Whether a worker goes on receiving after a request.
#[derive(Clone, Copy, Debug, PartialEq, Eq)]
pub enum WorkerStatus {
    Running,
    Stopped,
}

/// What a dispatch's report becomes as the worker's status.
pub open spec fn status_of(d: Result<(), Error>) -> Result<WorkerStatus, Error> {
    match d {
        Ok(()) => Ok(WorkerStatus::Running),
        Err(e) => Err(e),
    }
}

/// Handles one request: `Start` starts the machine, an envelope is
/// dispatched to it, and `Stop` ends the worker without touching the machine.
/// An error from the machine (a transition to a state its table lacks) is
/// handed back, and the worker must end then.
pub fn handle_request<E, C: StateMachineContext<E>, M: StateMachine<E, C>>(
    sm: &mut M,
    context: &mut C,
    request: ContextEvent<E>,
) -> (r: Result<WorkerStatus, Error>)
    ensures
        match request {
            ContextEvent::Stop => {
                &&& r == Ok::<WorkerStatus, Error>(WorkerStatus::Stopped)
                &&& *final(sm) == *old(sm)
                &&& *final(context) == *old(context)
            },
            ContextEvent::Start => {
                &&& r == Ok::<WorkerStatus, Error>(WorkerStatus::Running)
                &&& old(sm).started(*old(context), *final(sm), *final(context))
            },
            ContextEvent::Envelope(e) => exists|d: Result<(), Error>|
                #[trigger] old(sm).dispatched(*old(context), e, *final(sm), *final(context), d) && r
                    == status_of(d),
        },
{
    match request {
        ContextEvent::Start => {
            sm.start(context);
            Ok(WorkerStatus::Running)
        },
        ContextEvent::Stop => Ok(WorkerStatus::Stopped),
        ContextEvent::Envelope(event) => {
            let d = sm.dispatch(context, event);
            let r = match d {
                Ok(()) => Ok(WorkerStatus::Running),
                Err(e) => Err(e),
            };
            assert(r == status_of(d));
            r
        },
    }
}

} // verus!
