//! Dining philosophers: three philosopher machines and one table machine
//! that hands out forks, all talking through published events.
use vstd::prelude::*;

use crate::{ProcessingResult, State, StateHandlers, StateId, StateMachineContext};

verus! {

/// How long a philosopher thinks before asking for the left fork.
pub const THINK_DELAY_MS: u64 = 1000;

/// How long a philosopher eats.
pub const EAT_DELAY_MS: u64 = 100;

#[derive(Debug, Clone, Copy, PartialEq, Eq, Structural)]
pub enum PhilosopherId {
    Plato,
    Sokrates,
    Aristoteles,
}

#[derive(Debug, Clone, Copy, PartialEq, Eq, Structural)]
pub enum DppEvent {
    RequestLeftFork(PhilosopherId),
    RequestRightFork(PhilosopherId),
    FinishEating(PhilosopherId),
    ReleaseLeftFork(PhilosopherId),
    ReleaseRightFork(PhilosopherId),
    GrantLeftFork(PhilosopherId),
    GrantRightFork(PhilosopherId),
}

/// Private data of a philosopher machine.
#[derive(PartialEq, Eq, Debug, Structural)]
pub struct PhilosopherData {
    id: PhilosopherId,
}

impl PhilosopherData {
    pub closed spec fn id(&self) -> PhilosopherId {
        self.id
    }

    pub fn new(id: PhilosopherId) -> (r: Self)
        ensures
            r.id() == id,
    {
        PhilosopherData { id }
    }

    /// The philosopher this data belongs to.
    pub fn philosopher(&self) -> (r: PhilosopherId)
        ensures
            r == self.id(),
    {
        self.id
    }
}

#[derive(Debug, Clone, Copy, PartialEq, Eq, Structural)]
pub enum PhilosopherState {
    Think,
    Hungry,
    Eat,
}

/// Private data of the table machine: the holder of each of the three
/// interchangeable forks (`None` while it lies on the table), and the grants
/// owed to philosophers who asked while no fork was free, oldest first.
#[derive(PartialEq, Eq, Debug)]
pub struct TableData {
    holders: [Option<PhilosopherId>; 3],
    waiting: Vec<DppEvent>,
}

impl TableData {
    pub closed spec fn holders(&self) -> Seq<Option<PhilosopherId>> {
        self.holders@
    }

    pub closed spec fn waiting(&self) -> Seq<DppEvent> {
        self.waiting@
    }

    /// A table with every fork on it and nobody waiting.
    pub fn new() -> (r: Self)
        ensures
            r.holders() == seq![None::<PhilosopherId>, None, None],
            r.waiting() == Seq::<DppEvent>::empty(),
    {
        let r = TableData { holders: [None, None, None], waiting: Vec::new() };
        assert(r.holders() =~= seq![None::<PhilosopherId>, None, None]);
        r
    }

    /// Which forks lie on the table, by fork number.
    pub fn available_forks(&self) -> (r: [bool; 3])
        ensures
            forall|k: int| 0 <= k < 3 ==> r@[k] == (self.holders()[k] is None),
    {
        [self.holders[0].is_none(), self.holders[1].is_none(), self.holders[2].is_none()]
    }

    /// How many grants are owed to waiting philosophers.
    pub fn waiting_count(&self) -> (r: usize)
        ensures
            r == self.waiting().len(),
    {
        self.waiting.len()
    }
}

/// The lowest-numbered fork on the table, or -1 when every fork is held.
pub open spec fn first_free(h: Seq<Option<PhilosopherId>>) -> int {
    if h[0] is None {
        0
    } else if h[1] is None {
        1
    } else if h[2] is None {
        2
    } else {
        -1
    }
}

/// The lowest-numbered fork that `p` holds, or -1 when `p` holds none.
pub open spec fn held_by(h: Seq<Option<PhilosopherId>>, p: PhilosopherId) -> int {
    if h[0] == Some(p) {
        0
    } else if h[1] == Some(p) {
        1
    } else if h[2] == Some(p) {
        2
    } else {
        -1
    }
}

/// The philosopher that a grant is addressed to.
pub open spec fn grantee(g: DppEvent) -> PhilosopherId {
    match g {
        DppEvent::GrantLeftFork(q) => q,
        DppEvent::GrantRightFork(q) => q,
        DppEvent::RequestLeftFork(q) => q,
        DppEvent::RequestRightFork(q) => q,
        DppEvent::FinishEating(q) => q,
        DppEvent::ReleaseLeftFork(q) => q,
        DppEvent::ReleaseRightFork(q) => q,
    }
}

/// A request by `p`, answered by `grant`: while some fork lies on the table,
/// the lowest-numbered one goes to `p` and `grant` is published; when none
/// does, `grant` is owed and waits, and nothing is published.
pub open spec fn request_post(
    d0: TableData,
    p0: Seq<(u64, DppEvent)>,
    p: PhilosopherId,
    grant: DppEvent,
    d1: TableData,
    p1: Seq<(u64, DppEvent)>,
) -> bool {
    let f = first_free(d0.holders());
    if f >= 0 {
        &&& d1.holders() == d0.holders().update(f, Some(p))
        &&& d1.waiting() == d0.waiting()
        &&& p1 == p0.push((0u64, grant))
    } else {
        &&& d1.holders() == d0.holders()
        &&& d1.waiting() == d0.waiting().push(grant)
        &&& p1 == p0
    }
}

/// A release by `p`: one fork that `p` holds goes to the oldest waiting
/// grant, which is published, or back on the table when nobody waits. A
/// release by a philosopher who holds no fork changes nothing.
pub open spec fn release_post(
    d0: TableData,
    p0: Seq<(u64, DppEvent)>,
    p: PhilosopherId,
    d1: TableData,
    p1: Seq<(u64, DppEvent)>,
) -> bool {
    let f = held_by(d0.holders(), p);
    if f < 0 {
        &&& d1.holders() == d0.holders()
        &&& d1.waiting() == d0.waiting()
        &&& p1 == p0
    } else if d0.waiting().len() > 0 {
        &&& d1.holders() == d0.holders().update(f, Some(grantee(d0.waiting()[0])))
        &&& d1.waiting() == d0.waiting().remove(0)
        &&& p1 == p0.push((0u64, d0.waiting()[0]))
    } else {
        &&& d1.holders() == d0.holders().update(f, None)
        &&& d1.waiting() == d0.waiting()
        &&& p1 == p0
    }
}

/// What the table does with one event, from data `d0` and publications
/// `p0` to `d1` and `p1`, returning `r`.
pub open spec fn table_post(
    d0: TableData,
    p0: Seq<(u64, DppEvent)>,
    event: DppEvent,
    d1: TableData,
    p1: Seq<(u64, DppEvent)>,
    r: ProcessingResult<TableState>,
) -> bool {
    match event {
        DppEvent::RequestLeftFork(p) => r is Handled && request_post(
            d0,
            p0,
            p,
            DppEvent::GrantLeftFork(p),
            d1,
            p1,
        ),
        DppEvent::RequestRightFork(p) => r is Handled && request_post(
            d0,
            p0,
            p,
            DppEvent::GrantRightFork(p),
            d1,
            p1,
        ),
        DppEvent::ReleaseLeftFork(p) => r is Handled && release_post(d0, p0, p, d1, p1),
        DppEvent::ReleaseRightFork(p) => r is Handled && release_post(d0, p0, p, d1, p1),
        _ => r is Ignored && d1 == d0 && p1 == p0,
    }
}

/// Forks are exclusive: a fork that some philosopher holds changes hands
/// only when that philosopher releases a fork.
pub proof fn lemma_fork_changes_hands_only_on_release(
    d0: TableData,
    p0: Seq<(u64, DppEvent)>,
    event: DppEvent,
    d1: TableData,
    p1: Seq<(u64, DppEvent)>,
    r: ProcessingResult<TableState>,
    f: int,
)
    requires
        table_post(d0, p0, event, d1, p1, r),
        0 <= f < 3,
        d0.holders()[f] is Some,
        d1.holders()[f] != d0.holders()[f],
    ensures
        event == DppEvent::ReleaseLeftFork(d0.holders()[f]->0) || event
            == DppEvent::ReleaseRightFork(d0.holders()[f]->0),
{
}

/// A grant is never published on its own: each publication by the table is
/// one grant, and it comes with a fork handed to the grant's addressee that
/// was on the table or that its holder has just released.
pub proof fn lemma_grant_hands_over_a_fork(
    d0: TableData,
    p0: Seq<(u64, DppEvent)>,
    event: DppEvent,
    d1: TableData,
    p1: Seq<(u64, DppEvent)>,
    r: ProcessingResult<TableState>,
)
    requires
        table_post(d0, p0, event, d1, p1, r),
        p1 != p0,
    ensures
        p1.len() == p0.len() + 1,
        exists|f: int|
            {
                &&& 0 <= f < 3
                &&& (#[trigger] d1.holders()[f]) == Some(grantee(p1.last().1))
                &&& (d0.holders()[f] is None || event == DppEvent::ReleaseLeftFork(
                    d0.holders()[f]->0,
                ) || event == DppEvent::ReleaseRightFork(d0.holders()[f]->0))
            },
{
    match event {
        DppEvent::RequestLeftFork(p) => {
            let f = first_free(d0.holders());
            assert(d1.holders()[f] == Some(grantee(p1.last().1)));
        },
        DppEvent::RequestRightFork(p) => {
            let f = first_free(d0.holders());
            assert(d1.holders()[f] == Some(grantee(p1.last().1)));
        },
        DppEvent::ReleaseLeftFork(p) => {
            let f = held_by(d0.holders(), p);
            assert(d1.holders()[f] == Some(grantee(p1.last().1)));
        },
        DppEvent::ReleaseRightFork(p) => {
            let f = held_by(d0.holders(), p);
            assert(d1.holders()[f] == Some(grantee(p1.last().1)));
        },
        _ => {},
    }
}

fn holds(h: Option<PhilosopherId>, p: PhilosopherId) -> (r: bool)
    ensures
        r == (h == Some(p)),
{
    match h {
        Some(q) => q == p,
        None => false,
    }
}

fn grantee_of(g: DppEvent) -> (r: PhilosopherId)
    ensures
        r == grantee(g),
{
    match g {
        DppEvent::GrantLeftFork(q) => q,
        DppEvent::GrantRightFork(q) => q,
        DppEvent::RequestLeftFork(q) => q,
        DppEvent::RequestRightFork(q) => q,
        DppEvent::FinishEating(q) => q,
        DppEvent::ReleaseLeftFork(q) => q,
        DppEvent::ReleaseRightFork(q) => q,
    }
}

#[derive(Debug, Clone, Copy, PartialEq, Eq, Structural)]
pub enum TableState {
    Operational,
}

/// What a philosopher's dispatch handler returns: a transition to `next` on
/// `trigger` addressed to the philosopher itself, `Ignored` on anything else.
pub open spec fn reaction(
    event: DppEvent,
    trigger: DppEvent,
    next: PhilosopherState,
) -> ProcessingResult<PhilosopherState> {
    if event == trigger {
        ProcessingResult::Transition(next)
    } else {
        ProcessingResult::Ignored
    }
}

/// Entering Think: ask for the left fork once the thinking time is over.
pub fn philosopher_think_entry<C: StateMachineContext<DppEvent>>(
    data: &mut PhilosopherData,
    context: &mut C,
)
    ensures
        *final(data) == *old(data),
        final(context).published() == old(context).published().push(
            (THINK_DELAY_MS, DppEvent::RequestLeftFork(old(data).id())),
        ),
{
    context.publish_delayed_event(THINK_DELAY_MS, DppEvent::RequestLeftFork(data.id));
}

/// In Think, the grant of the own left fork leads to Hungry.
pub fn philosopher_think_dispatch<C: StateMachineContext<DppEvent>>(
    data: &mut PhilosopherData,
    context: &mut C,
    event: DppEvent,
) -> (r: ProcessingResult<PhilosopherState>)
    ensures
        *final(data) == *old(data),
        r == reaction(event, DppEvent::GrantLeftFork(old(data).id()), PhilosopherState::Hungry),
        final(context).published() == old(context).published(),
{
    match event {
        DppEvent::GrantLeftFork(philosopher) => {
            if philosopher == data.id {
                ProcessingResult::Transition(PhilosopherState::Hungry)
            } else {
                ProcessingResult::Ignored
            }
        },
        _ => ProcessingResult::Ignored,
    }
}

/// Entering Hungry: ask for the right fork.
pub fn philosopher_hungry_entry<C: StateMachineContext<DppEvent>>(
    data: &mut PhilosopherData,
    context: &mut C,
)
    ensures
        *final(data) == *old(data),
        final(context).published() == old(context).published().push(
            (0u64, DppEvent::RequestRightFork(old(data).id())),
        ),
{
    context.publish_event(DppEvent::RequestRightFork(data.id));
}

/// In Hungry, the grant of the own right fork leads to Eat.
pub fn philosopher_hungry_dispatch<C: StateMachineContext<DppEvent>>(
    data: &mut PhilosopherData,
    context: &mut C,
    event: DppEvent,
) -> (r: ProcessingResult<PhilosopherState>)
    ensures
        *final(data) == *old(data),
        r == reaction(event, DppEvent::GrantRightFork(old(data).id()), PhilosopherState::Eat),
        final(context).published() == old(context).published(),
{
    match event {
        DppEvent::GrantRightFork(philosopher) => {
            if philosopher == data.id {
                ProcessingResult::Transition(PhilosopherState::Eat)
            } else {
                ProcessingResult::Ignored
            }
        },
        _ => ProcessingResult::Ignored,
    }
}

/// Entering Eat: announce the end of the meal once the eating time is over.
pub fn philosopher_eat_entry<C: StateMachineContext<DppEvent>>(
    data: &mut PhilosopherData,
    context: &mut C,
)
    ensures
        *final(data) == *old(data),
        final(context).published() == old(context).published().push(
            (EAT_DELAY_MS, DppEvent::FinishEating(old(data).id())),
        ),
{
    context.publish_delayed_event(EAT_DELAY_MS, DppEvent::FinishEating(data.id));
}

/// Leaving Eat: put both forks back, the left one first.
pub fn philosopher_eat_exit<C: StateMachineContext<DppEvent>>(
    data: &mut PhilosopherData,
    context: &mut C,
)
    ensures
        *final(data) == *old(data),
        final(context).published() == old(context).published().push(
            (0u64, DppEvent::ReleaseLeftFork(old(data).id())),
        ).push((0u64, DppEvent::ReleaseRightFork(old(data).id()))),
{
    context.publish_event(DppEvent::ReleaseLeftFork(data.id));
    context.publish_event(DppEvent::ReleaseRightFork(data.id));
}

/// In Eat, the own end of the meal leads back to Think.
pub fn philosopher_eat_dispatch<C: StateMachineContext<DppEvent>>(
    data: &mut PhilosopherData,
    context: &mut C,
    event: DppEvent,
) -> (r: ProcessingResult<PhilosopherState>)
    ensures
        *final(data) == *old(data),
        r == reaction(event, DppEvent::FinishEating(old(data).id()), PhilosopherState::Think),
        final(context).published() == old(context).published(),
{
    match event {
        DppEvent::FinishEating(philosopher) => {
            if philosopher == data.id {
                ProcessingResult::Transition(PhilosopherState::Think)
            } else {
                ProcessingResult::Ignored
            }
        },
        _ => ProcessingResult::Ignored,
    }
}

/// Handles a request by `p`, to be answered by `grant`.
fn table_request<C: StateMachineContext<DppEvent>>(
    data: &mut TableData,
    context: &mut C,
    p: PhilosopherId,
    grant: DppEvent,
)
    ensures
        request_post(
            *old(data),
            old(context).published(),
            p,
            grant,
            *final(data),
            final(context).published(),
        ),
{
    let free: Option<usize> = if data.holders[0].is_none() {
        Some(0)
    } else if data.holders[1].is_none() {
        Some(1)
    } else if data.holders[2].is_none() {
        Some(2)
    } else {
        None
    };
    match free {
        Some(f) => {
            data.holders[f] = Some(p);
            context.publish_event(grant);
        },
        None => data.waiting.push(grant),
    }
}

/// Handles a release by `p`.
fn table_release<C: StateMachineContext<DppEvent>>(
    data: &mut TableData,
    context: &mut C,
    p: PhilosopherId,
)
    ensures
        release_post(
            *old(data),
            old(context).published(),
            p,
            *final(data),
            final(context).published(),
        ),
{
    let held: Option<usize> = if holds(data.holders[0], p) {
        Some(0)
    } else if holds(data.holders[1], p) {
        Some(1)
    } else if holds(data.holders[2], p) {
        Some(2)
    } else {
        None
    };
    match held {
        Some(f) => {
            if data.waiting.len() > 0 {
                let g = data.waiting.remove(0);
                data.holders[f] = Some(grantee_of(g));
                context.publish_event(g);
            } else {
                data.holders[f] = None;
            }
        },
        None => {},
    }
}

/// The table hands out its three interchangeable forks one philosopher at a
/// time: a request is granted while any fork lies on the table, else it
/// waits until a fork is released.
pub fn table_operational_dispatch<C: StateMachineContext<DppEvent>>(
    data: &mut TableData,
    context: &mut C,
    event: DppEvent,
) -> (r: ProcessingResult<TableState>)
    ensures
        table_post(
            *old(data),
            old(context).published(),
            event,
            *final(data),
            final(context).published(),
            r,
        ),
{
    match event {
        DppEvent::RequestLeftFork(p) => {
            table_request(data, context, p, DppEvent::GrantLeftFork(p));
            ProcessingResult::Handled
        },
        DppEvent::RequestRightFork(p) => {
            table_request(data, context, p, DppEvent::GrantRightFork(p));
            ProcessingResult::Handled
        },
        DppEvent::ReleaseLeftFork(p) => {
            table_release(data, context, p);
            ProcessingResult::Handled
        },
        DppEvent::ReleaseRightFork(p) => {
            table_release(data, context, p);
            ProcessingResult::Handled
        },
        _ => ProcessingResult::Ignored,
    }
}

impl StateId for PhilosopherState {
    fn same_state(&self, other: &Self) -> (r: bool) {
        *self == *other
    }
}

impl StateId for TableState {
    fn same_state(&self, other: &Self) -> (r: bool) {
        *self == *other
    }
}

/// What entering a philosopher state does.
pub open spec fn philosopher_entry_post<C: StateMachineContext<DppEvent>>(
    state: PhilosopherState,
    d0: PhilosopherData,
    c0: C,
    d1: PhilosopherData,
    c1: C,
) -> bool {
    &&& d1 == d0
    &&& c1.published() == c0.published().push(
        match state {
            PhilosopherState::Think => (THINK_DELAY_MS, DppEvent::RequestLeftFork(d0.id())),
            PhilosopherState::Hungry => (0u64, DppEvent::RequestRightFork(d0.id())),
            PhilosopherState::Eat => (EAT_DELAY_MS, DppEvent::FinishEating(d0.id())),
        },
    )
}

/// What leaving a philosopher state does: only leaving Eat publishes.
pub open spec fn philosopher_exit_post<C: StateMachineContext<DppEvent>>(
    state: PhilosopherState,
    d0: PhilosopherData,
    c0: C,
    d1: PhilosopherData,
    c1: C,
) -> bool {
    &&& d1 == d0
    &&& match state {
        PhilosopherState::Eat => c1.published() == c0.published().push(
            (0u64, DppEvent::ReleaseLeftFork(d0.id())),
        ).push((0u64, DppEvent::ReleaseRightFork(d0.id()))),
        _ => c1 == c0,
    }
}

/// What a philosopher state answers to an event.
pub open spec fn philosopher_reaction(
    state: PhilosopherState,
    id: PhilosopherId,
    event: DppEvent,
) -> ProcessingResult<PhilosopherState> {
    match state {
        PhilosopherState::Think => reaction(
            event,
            DppEvent::GrantLeftFork(id),
            PhilosopherState::Hungry,
        ),
        PhilosopherState::Hungry => reaction(event, DppEvent::GrantRightFork(id), PhilosopherState::Eat),
        PhilosopherState::Eat => reaction(event, DppEvent::FinishEating(id), PhilosopherState::Think),
    }
}

impl<C: StateMachineContext<DppEvent>> StateHandlers<PhilosopherData, DppEvent, C> for PhilosopherState {
    open spec fn entry_post(&self, d0: PhilosopherData, c0: C, d1: PhilosopherData, c1: C) -> bool {
        philosopher_entry_post(*self, d0, c0, d1, c1)
    }

    open spec fn exit_post(&self, d0: PhilosopherData, c0: C, d1: PhilosopherData, c1: C) -> bool {
        philosopher_exit_post(*self, d0, c0, d1, c1)
    }

    open spec fn dispatch_post(
        &self,
        d0: PhilosopherData,
        c0: C,
        event: DppEvent,
        d1: PhilosopherData,
        c1: C,
        r: ProcessingResult<PhilosopherState>,
    ) -> bool {
        &&& d1 == d0
        &&& c1.published() == c0.published()
        &&& r == philosopher_reaction(*self, d0.id(), event)
    }

    fn entry(&self, data: &mut PhilosopherData, context: &mut C) {
        match self {
            PhilosopherState::Think => philosopher_think_entry(data, context),
            PhilosopherState::Hungry => philosopher_hungry_entry(data, context),
            PhilosopherState::Eat => philosopher_eat_entry(data, context),
        }
    }

    fn exit(&self, data: &mut PhilosopherData, context: &mut C) {
        match self {
            PhilosopherState::Eat => philosopher_eat_exit(data, context),
            _ => {},
        }
    }

    fn dispatch(&self, data: &mut PhilosopherData, context: &mut C, event: DppEvent) -> (r:
        ProcessingResult<PhilosopherState>) {
        match self {
            PhilosopherState::Think => philosopher_think_dispatch(data, context, event),
            PhilosopherState::Hungry => philosopher_hungry_dispatch(data, context, event),
            PhilosopherState::Eat => philosopher_eat_dispatch(data, context, event),
        }
    }
}

impl<C: StateMachineContext<DppEvent>> StateHandlers<TableData, DppEvent, C> for TableState {
    open spec fn entry_post(&self, d0: TableData, c0: C, d1: TableData, c1: C) -> bool {
        d1 == d0 && c1 == c0
    }

    open spec fn exit_post(&self, d0: TableData, c0: C, d1: TableData, c1: C) -> bool {
        d1 == d0 && c1 == c0
    }

    open spec fn dispatch_post(
        &self,
        d0: TableData,
        c0: C,
        event: DppEvent,
        d1: TableData,
        c1: C,
        r: ProcessingResult<TableState>,
    ) -> bool {
        table_post(d0, c0.published(), event, d1, c1.published(), r)
    }

    fn entry(&self, data: &mut TableData, context: &mut C) {
    }

    fn exit(&self, data: &mut TableData, context: &mut C) {
    }

    fn dispatch(&self, data: &mut TableData, context: &mut C, event: DppEvent) -> (r:
        ProcessingResult<TableState>) {
        table_operational_dispatch(data, context, event)
    }
}

/// The philosophers' state table: Think first, then Hungry, then Eat.
pub fn philosopher_states() -> (r: Vec<State<PhilosopherState>>)
    ensures
        r@.len() == 3,
        r@[0] == (State { state: PhilosopherState::Think, super_state: None }),
        r@[1] == (State { state: PhilosopherState::Hungry, super_state: None }),
        r@[2] == (State { state: PhilosopherState::Eat, super_state: None }),
{
    vec![
        State { state: PhilosopherState::Think, super_state: None },
        State { state: PhilosopherState::Hungry, super_state: None },
        State { state: PhilosopherState::Eat, super_state: None },
    ]
}

/// The table machine's state table, with its one state.
pub fn table_states() -> (r: Vec<State<TableState>>)
    ensures
        r@.len() == 1,
        r@[0] == (State { state: TableState::Operational, super_state: None }),
{
    vec![State { state: TableState::Operational, super_state: None }]
}

} // verus!
