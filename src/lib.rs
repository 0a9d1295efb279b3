//! Table-driven finite state machines that react to a shared stream of events.
//!
//! A state table is an ordered list of state descriptors, one per state
//! identifier. The behaviour of each state (entry, exit and dispatch handlers)
//! is given by the state identifier type through `StateHandlers`.
use vstd::prelude::*;

pub mod dpp;
pub mod fsm;
pub mod runtime;

verus! {

/// What a dispatch handler decided about one event.
pub enum ProcessingResult<S> {
    /// The event was consumed; the state stays.
    Handled,
    /// The event does not concern the current state; the state stays.
    Ignored,
    /// Leave the current state for the named one.
    Transition(S),
    /// Reserved for hierarchical machines; no effect in a flat machine.
    Top,
    /// Reserved for hierarchical machines; no effect in a flat machine.
    SuperState(S),
}

/// One entry of a state table.
///
/// Each state identifier must be described by exactly one element of a table.
pub struct State<S> {
    pub state: S,
    /// Reserved for hierarchical machines; a flat machine never reads it.
    pub super_state: Option<S>,
}

/// Equality test on state identifiers, exact with respect to their values.
pub trait StateId: Sized {
    fn same_state(&self, other: &Self) -> (r: bool)
        ensures
            r <==> *self == *other,
    ;
}

/// Execution environment through which handlers emit events.
///
/// Published events are delivered later and asynchronously; a handler never
/// dispatches into a machine directly.
pub trait StateMachineContext<E> {
    /// The publications asked of this context so far, in order, each with
    /// its delay in milliseconds (0 for an immediate one).
    spec fn published(&self) -> Seq<(u64, E)>;

    /// Publish an event to every machine, the publisher included.
    fn publish_event(&mut self, e: E)
        ensures
            final(self).published() == old(self).published().push((0u64, e)),
    ;

    /// Publish an event once `delay_in_ms` milliseconds have passed.
    fn publish_delayed_event(&mut self, delay_in_ms: u64, e: E)
        ensures
            final(self).published() == old(self).published().push((delay_in_ms, e)),
    ;
}

/// The behaviour of the states named by `Self`, over private data `D`, events
/// `E` and an execution context `C`.
///
/// Each handler's effect is named by a spec function over the data and the
/// context before and after the call, so that a machine's contract can say
/// which handlers ran and in what order.
pub trait StateHandlers<D, E, C: StateMachineContext<E>>: Sized {
    /// The entry handler of `self` may take data `d0` and context `c0` to
    /// `d1` and `c1`.
    spec fn entry_post(&self, d0: D, c0: C, d1: D, c1: C) -> bool;

    /// The exit handler of `self` may take `d0` and `c0` to `d1` and `c1`.
    spec fn exit_post(&self, d0: D, c0: C, d1: D, c1: C) -> bool;

    /// The dispatch handler of `self`, given `event`, may take `d0` and `c0`
    /// to `d1` and `c1` and return `r`.
    spec fn dispatch_post(
        &self,
        d0: D,
        c0: C,
        event: E,
        d1: D,
        c1: C,
        r: ProcessingResult<Self>,
    ) -> bool;

    /// Runs when the machine enters the state.
    fn entry(&self, data: &mut D, context: &mut C)
        ensures
            self.entry_post(*old(data), *old(context), *final(data), *final(context)),
    ;

    /// Runs when the machine leaves the state.
    fn exit(&self, data: &mut D, context: &mut C)
        ensures
            self.exit_post(*old(data), *old(context), *final(data), *final(context)),
    ;

    /// Decides what the event means in this state.
    fn dispatch(&self, data: &mut D, context: &mut C, event: E) -> (r: ProcessingResult<Self>)
        ensures
            self.dispatch_post(*old(data), *old(context), event, *final(data), *final(context), r),
    ;
}

/// Minimal interface of a running state machine.
pub trait StateMachine<E, C: StateMachineContext<E>>: Sized {
    /// `start` may take the machine `self` and context `c0` to `after` and `c1`.
    spec fn started(&self, c0: C, after: Self, c1: C) -> bool;

    /// `dispatch` of `event` may take `self` and `c0` to `after` and `c1`,
    /// reporting `r`.
    spec fn dispatched(&self, c0: C, event: E, after: Self, c1: C, r: Result<(), Error>) -> bool;

    /// Bring the machine into its initial state.
    fn start(&mut self, context: &mut C)
        ensures
            old(self).started(*old(context), *final(self), *final(context)),
    ;

    /// Let the machine process an event; fails when the table lacks the state
    /// that a transition names.
    fn dispatch(&mut self, context: &mut C, event: E) -> (r: Result<(), Error>)
        ensures
            old(self).dispatched(*old(context), event, *final(self), *final(context), r),
    ;
}

/// Failure to find a state identifier in a state table.
#[derive(Debug, Clone)]
pub struct Error;

/// Some descriptor of the table names `s`.
pub open spec fn has_state<S>(table: Seq<State<S>>, s: S) -> bool {
    exists|j: int| 0 <= j < table.len() && (#[trigger] table[j]).state == s
}

/// `i` is the first position of the table whose descriptor names `s`.
pub open spec fn first_position<S>(table: Seq<State<S>>, s: S, i: int) -> bool {
    &&& 0 <= i < table.len()
    &&& table[i].state == s
    &&& forall|j: int| 0 <= j < i ==> (#[trigger] table[j]).state != s
}

/// No two descriptors of the table name the same state.
pub open spec fn distinct_states<S>(table: Seq<State<S>>) -> bool {
    forall|a: int, b: int|
        0 <= a < table.len() && 0 <= b < table.len() && a != b ==> (#[trigger] table[a]).state
            != (#[trigger] table[b]).state
}

/// Position of the descriptor that names `state`.
pub fn find_state_index<S: StateId>(state_list: &[State<S>], state: S) -> (r: Result<usize, Error>)
    ensures
        match r {
            Ok(i) => first_position(state_list@, state, i as int),
            Err(_) => !has_state(state_list@, state),
        },
{
    let mut index: usize = 0;
    while index < state_list.len()
        invariant
            index <= state_list@.len(),
            forall|j: int| 0 <= j < index ==> (#[trigger] state_list@[j]).state != state,
        decreases state_list@.len() - index,
    {
        if state_list[index].state.same_state(&state) {
            return Ok(index);
        }
        index = index + 1;
    }
    Err(Error)
}

/// In a table whose identifiers are pairwise distinct, the lookup of each
/// member's identifier yields that member's position, and the lookup of an
/// identifier that no member names fails.
pub proof fn lemma_lookup_in_distinct_table<S>(table: Seq<State<S>>, k: int, absent: S)
    requires
        distinct_states(table),
        0 <= k < table.len(),
        !has_state(table, absent),
    ensures
        first_position(table, table[k].state, k),
        forall|i: int| !first_position(table, absent, i),
        forall|i: int| first_position(table, table[k].state, i) ==> i == k,
{
    assert forall|i: int| first_position(table, table[k].state, i) implies i == k by {
        if i != k {
            assert(table[i].state != table[k].state);
        }
    }
    assert forall|i: int| !first_position(table, absent, i) by {
        if 0 <= i < table.len() && table[i].state == absent {
            assert(has_state(table, absent));
        }
    }
}

} // verus!
