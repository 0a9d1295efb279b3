//! Flat finite state machine driven by a state table.
use vstd::prelude::*;

use crate::{
    find_state_index, first_position, has_state, Error, ProcessingResult, State, StateHandlers,
    StateId, StateMachine, StateMachineContext,
};

verus! {

/// A machine instance: a state table, the current position in it, the
/// private data that the handlers work on, and whether the machine has
/// failed. A machine fails, for good, when a transition names a state that
/// its table lacks; a failed machine runs no handler again.
pub struct FiniteStateMachine<D, S> {
    index: usize,
    state_list: Vec<State<S>>,
    data: D,
    failed: bool,
}

impl<D, S> FiniteStateMachine<D, S> {
    pub closed spec fn index(&self) -> nat {
        self.index as nat
    }

    pub closed spec fn states(&self) -> Seq<State<S>> {
        self.state_list@
    }

    pub closed spec fn data(&self) -> D {
        self.data
    }

    pub closed spec fn failed(&self) -> bool {
        self.failed
    }

    /// The current position lies inside a non-empty table.
    pub open spec fn wf(&self) -> bool {
        self.index() < self.states().len()
    }

    /// The dispatch handler of the state at position `i` of `states` returned
    /// `res`, leaving data `d1` and context `c1`; acting on it then leads to
    /// position `j`, data `d2` and context `c2`, with `r` reported and `f2`
    /// telling whether the machine has failed. On a transition the state at
    /// `i` is left through its exit handler and then the named state is
    /// entered through its entry handler, or, when the table lacks it, the
    /// machine fails; otherwise no handler runs.
    pub open spec fn concluded<E, C: StateMachineContext<E>>(
        states: Seq<State<S>>,
        i: int,
        d1: D,
        c1: C,
        res: ProcessingResult<S>,
        j: int,
        d2: D,
        c2: C,
        f2: bool,
        r: Result<(), Error>,
    ) -> bool where S: StateHandlers<D, E, C> {
        match res {
            ProcessingResult::Transition(s) => {
                if has_state(states, s) {
                    &&& r is Ok
                    &&& !f2
                    &&& first_position(states, s, j)
                    &&& exists|dx: D, cx: C|
                        #[trigger] states[i].state.exit_post(d1, c1, dx, cx)
                            && states[j].state.entry_post(dx, cx, d2, c2)
                } else {
                    &&& r is Err
                    &&& f2
                    &&& j == i
                    &&& states[i].state.exit_post(d1, c1, d2, c2)
                }
            },
            _ => {
                &&& r is Ok
                &&& !f2
                &&& j == i
                &&& d2 == d1
                &&& c2 == c1
            },
        }
    }

    /// What `start` does: the entry handler of the current state runs once,
    /// and the position and table stay; a failed machine is left as it is.
    pub open spec fn start_effect<E, C: StateMachineContext<E>>(
        &self,
        c0: C,
        after: Self,
        c1: C,
    ) -> bool where S: StateHandlers<D, E, C> {
        if self.failed() {
            after == *self && c1 == c0
        } else {
            &&& after.states() == self.states()
            &&& after.index() == self.index()
            &&& !after.failed()
            &&& self.states()[self.index() as int].state.entry_post(
                self.data(),
                c0,
                after.data(),
                c1,
            )
        }
    }

    /// What `dispatch` of `event` does: the dispatch handler of the current
    /// state runs once on `event`, and the machine then acts on its result
    /// as `concluded` says. A failed machine is left as it is and reports an
    /// error.
    pub open spec fn dispatch_effect<E, C: StateMachineContext<E>>(
        &self,
        c0: C,
        event: E,
        after: Self,
        c1: C,
        r: Result<(), Error>,
    ) -> bool where S: StateHandlers<D, E, C> {
        if self.failed() {
            r is Err && after == *self && c1 == c0
        } else {
            &&& after.states() == self.states()
            &&& exists|d1: D, cx: C, res: ProcessingResult<S>|
                #[trigger] self.dispatch_step(c0, event, d1, cx, res, after, c1, r)
        }
    }

    /// One way a dispatch of `event` can go: the dispatch handler of the
    /// current state leaves data `d1` and context `cx` and returns `res`, and
    /// acting on `res` leads to `after` and `c1`, with `r` reported.
    pub open spec fn dispatch_step<E, C: StateMachineContext<E>>(
        &self,
        c0: C,
        event: E,
        d1: D,
        cx: C,
        res: ProcessingResult<S>,
        after: Self,
        c1: C,
        r: Result<(), Error>,
    ) -> bool where S: StateHandlers<D, E, C> {
        &&& self.states()[self.index() as int].state.dispatch_post(
            self.data(),
            c0,
            event,
            d1,
            cx,
            res,
        )
        &&& Self::concluded::<E, C>(
            self.states(),
            self.index() as int,
            d1,
            cx,
            res,
            after.index() as int,
            after.data(),
            c1,
            after.failed(),
            r,
        )
    }

    /// A machine on the first state of `state_list`, with no handler run yet.
    pub fn new(state_list: Vec<State<S>>, data: D) -> (r: Self)
        requires
            state_list@.len() > 0,
        ensures
            r.wf(),
            r.index() == 0,
            r.states() == state_list@,
            r.data() == data,
            !r.failed(),
    {
        FiniteStateMachine { state_list, index: 0, data, failed: false }
    }

    /// The table position of the current state.
    pub fn state_index(&self) -> (r: usize)
        ensures
            r == self.index(),
    {
        self.index
    }

    /// Whether the machine has failed.
    pub fn has_failed(&self) -> (r: bool)
        ensures
            r == self.failed(),
    {
        self.failed
    }

    /// The machine's private data.
    pub fn private_data(&self) -> (r: &D)
        ensures
            *r == self.data(),
    {
        &self.data
    }

    /// Runs the entry handler of the current (initial) state, and nothing else.
    pub fn start<E, C: StateMachineContext<E>>(&mut self, context: &mut C)
        where S: StateHandlers<D, E, C>,
        requires
            old(self).wf(),
        ensures
            final(self).wf(),
            old(self).start_effect(*old(context), *final(self), *final(context)),
    {
        if !self.failed {
            self.state_list[self.index].state.entry(&mut self.data, context);
        }
    }

    /// Acts on what the current state's dispatch handler returned: on a
    /// transition, runs the current state's exit handler, looks the next
    /// state up and runs its entry handler, or marks the machine failed when
    /// the table lacks it; otherwise does nothing.
    pub fn conclude<E, C: StateMachineContext<E>>(
        &mut self,
        context: &mut C,
        res: ProcessingResult<S>,
    ) -> (r: Result<(), Error>)
        where S: StateHandlers<D, E, C> + StateId,
        requires
            old(self).wf(),
            !old(self).failed(),
        ensures
            final(self).wf(),
            final(self).states() == old(self).states(),
            Self::concluded::<E, C>(
                old(self).states(),
                old(self).index() as int,
                old(self).data(),
                *old(context),
                res,
                final(self).index() as int,
                final(self).data(),
                *final(context),
                final(self).failed(),
                r,
            ),
    {
        match res {
            ProcessingResult::Transition(new_state) => {
                let ghost i = self.index as int;
                self.state_list[self.index].state.exit(&mut self.data, context);
                let ghost dx = self.data;
                let ghost cx = *context;
                match find_state_index(self.state_list.as_slice(), new_state) {
                    Ok(j) => {
                        self.index = j;
                        self.state_list[self.index].state.entry(&mut self.data, context);
                        assert(self.state_list@[i].state.exit_post(
                            old(self).data,
                            *old(context),
                            dx,
                            cx,
                        ) && self.state_list@[j as int].state.entry_post(
                            dx,
                            cx,
                            self.data,
                            *context,
                        ));
                        Ok(())
                    },
                    Err(e) => {
                        self.failed = true;
                        Err(e)
                    },
                }
            },
            _ => Ok(()),
        }
    }

    /// Feeds one event to the current state's dispatch handler and acts on
    /// its result. An error means that the machine has failed: now, because
    /// a transition named a state the table lacks, or earlier.
    pub fn dispatch<E, C: StateMachineContext<E>>(&mut self, context: &mut C, event: E) -> (r:
        Result<(), Error>)
        where S: StateHandlers<D, E, C> + StateId,
        requires
            old(self).wf(),
        ensures
            final(self).wf(),
            old(self).dispatch_effect(*old(context), event, *final(self), *final(context), r),
    {
        if self.failed {
            return Err(Error);
        }
        let ghost d0 = self.data;
        let ghost c0 = *context;
        let ghost ev = event;
        let res = self.state_list[self.index].state.dispatch(&mut self.data, context, event);
        let ghost d1 = self.data;
        let ghost c1 = *context;
        let ghost rs = res;
        let r = self.conclude(context, res);
        assert(old(self).dispatch_step(c0, ev, d1, c1, rs, *self, *context, r));
        r
    }
}

// Every machine made by `new` keeps its position inside the table, so the
// position checks below always succeed; they let Verus see that here.
impl<D, E, C: StateMachineContext<E>, S: StateHandlers<D, E, C> + StateId> StateMachine<
    E,
    C,
> for FiniteStateMachine<D, S> {
    open spec fn started(&self, c0: C, after: Self, c1: C) -> bool {
        if self.wf() {
            self.start_effect(c0, after, c1)
        } else {
            after == *self && c1 == c0
        }
    }

    open spec fn dispatched(
        &self,
        c0: C,
        event: E,
        after: Self,
        c1: C,
        r: Result<(), Error>,
    ) -> bool {
        if self.wf() {
            self.dispatch_effect(c0, event, after, c1, r)
        } else {
            r is Err && after == *self && c1 == c0
        }
    }

    fn start(&mut self, context: &mut C) {
        if self.index < self.state_list.len() {
            FiniteStateMachine::start(self, context);
        }
    }

    fn dispatch(&mut self, context: &mut C, event: E) -> Result<(), Error> {
        if self.index < self.state_list.len() {
            FiniteStateMachine::dispatch(self, context, event)
        } else {
            Err(Error)
        }
    }
}

} // verus!
