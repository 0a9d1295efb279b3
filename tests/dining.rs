use std::collections::VecDeque;

use qlrl::dpp::{
    philosopher_eat_dispatch, philosopher_eat_entry, philosopher_eat_exit, philosopher_hungry_dispatch,
    philosopher_hungry_entry, philosopher_states, philosopher_think_dispatch, philosopher_think_entry,
    table_operational_dispatch, table_states, DppEvent, PhilosopherData, PhilosopherId, PhilosopherState,
    TableData, TableState, EAT_DELAY_MS, THINK_DELAY_MS,
};
use qlrl::fsm::FiniteStateMachine;
use qlrl::runtime::WorkerContext;
use qlrl::{find_state_index, ProcessingResult};

use DppEvent::{
    FinishEating, GrantLeftFork, GrantRightFork, ReleaseLeftFork, ReleaseRightFork, RequestLeftFork, RequestRightFork,
};
use PhilosopherId::{Aristoteles, Plato, Sokrates};

#[test]
fn philosopher_data_keeps_its_id() {
    assert_eq!(Sokrates, PhilosopherData::new(Sokrates).philosopher());
    assert_eq!(PhilosopherData::new(Plato), PhilosopherData::new(Plato));
}

#[test]
fn new_table_has_all_forks() {
    assert_eq!([true, true, true], TableData::new().available_forks());
}

#[test]
fn state_tables_list_their_states_in_order() {
    let p = philosopher_states();
    assert_eq!(0, find_state_index(&p, PhilosopherState::Think).unwrap());
    assert_eq!(1, find_state_index(&p, PhilosopherState::Hungry).unwrap());
    assert_eq!(2, find_state_index(&p, PhilosopherState::Eat).unwrap());
    let t = table_states();
    assert_eq!(1, t.len());
    assert_eq!(TableState::Operational, t[0].state);
}

#[test]
fn think_entry_requests_left_fork_after_delay() {
    let mut d = PhilosopherData::new(Plato);
    let mut o = WorkerContext::new();
    philosopher_think_entry(&mut d, &mut o);
    assert_eq!(vec![(THINK_DELAY_MS, RequestLeftFork(Plato))], o.published);
    assert_eq!(1000, THINK_DELAY_MS);
}

#[test]
fn hungry_entry_requests_right_fork() {
    let mut d = PhilosopherData::new(Sokrates);
    let mut o = WorkerContext::new();
    philosopher_hungry_entry(&mut d, &mut o);
    assert_eq!(vec![(0, RequestRightFork(Sokrates))], o.published);
}

#[test]
fn eat_entry_and_exit_publish() {
    let mut d = PhilosopherData::new(Aristoteles);
    let mut o = WorkerContext::new();
    philosopher_eat_entry(&mut d, &mut o);
    philosopher_eat_exit(&mut d, &mut o);
    assert_eq!(
        vec![
            (EAT_DELAY_MS, FinishEating(Aristoteles)),
            (0, ReleaseLeftFork(Aristoteles)),
            (0, ReleaseRightFork(Aristoteles)),
        ],
        o.published
    );
    assert_eq!(100, EAT_DELAY_MS);
}

#[test]
fn philosopher_dispatch_reacts_only_to_own_events() {
    let mut d = PhilosopherData::new(Plato);
    let mut o = WorkerContext::new();
    assert!(matches!(
        philosopher_think_dispatch(&mut d, &mut o, GrantLeftFork(Plato)),
        ProcessingResult::Transition(PhilosopherState::Hungry)
    ));
    assert!(matches!(philosopher_think_dispatch(&mut d, &mut o, GrantLeftFork(Sokrates)), ProcessingResult::Ignored));
    assert!(matches!(philosopher_think_dispatch(&mut d, &mut o, GrantRightFork(Plato)), ProcessingResult::Ignored));
    assert!(matches!(
        philosopher_hungry_dispatch(&mut d, &mut o, GrantRightFork(Plato)),
        ProcessingResult::Transition(PhilosopherState::Eat)
    ));
    assert!(matches!(philosopher_hungry_dispatch(&mut d, &mut o, GrantRightFork(Aristoteles)), ProcessingResult::Ignored));
    assert!(matches!(
        philosopher_eat_dispatch(&mut d, &mut o, FinishEating(Plato)),
        ProcessingResult::Transition(PhilosopherState::Think)
    ));
    assert!(matches!(philosopher_eat_dispatch(&mut d, &mut o, FinishEating(Sokrates)), ProcessingResult::Ignored));
    assert!(o.published.is_empty());
}

#[test]
fn table_grants_any_free_fork_and_hands_released_ones_to_waiters() {
    let mut t = TableData::new();
    let mut o = WorkerContext::new();
    assert!(matches!(table_operational_dispatch(&mut t, &mut o, RequestLeftFork(Sokrates)), ProcessingResult::Handled));
    assert_eq!([false, true, true], t.available_forks());
    assert_eq!(vec![(0, GrantLeftFork(Sokrates))], o.take_published());
    assert!(matches!(table_operational_dispatch(&mut t, &mut o, RequestRightFork(Plato)), ProcessingResult::Handled));
    assert_eq!([false, false, true], t.available_forks());
    assert_eq!(vec![(0, GrantRightFork(Plato))], o.take_published());
    table_operational_dispatch(&mut t, &mut o, RequestLeftFork(Aristoteles));
    assert_eq!([false, false, false], t.available_forks());
    assert_eq!(vec![(0, GrantLeftFork(Aristoteles))], o.take_published());
    table_operational_dispatch(&mut t, &mut o, RequestRightFork(Sokrates));
    assert!(o.published.is_empty());
    assert_eq!(1, t.waiting_count());
    assert!(matches!(table_operational_dispatch(&mut t, &mut o, ReleaseRightFork(Plato)), ProcessingResult::Handled));
    assert_eq!([false, false, false], t.available_forks());
    assert_eq!(0, t.waiting_count());
    assert_eq!(vec![(0, GrantRightFork(Sokrates))], o.take_published());
    table_operational_dispatch(&mut t, &mut o, ReleaseLeftFork(Aristoteles));
    assert_eq!([false, false, true], t.available_forks());
    table_operational_dispatch(&mut t, &mut o, ReleaseLeftFork(Plato));
    assert_eq!([false, false, true], t.available_forks());
    assert!(matches!(table_operational_dispatch(&mut t, &mut o, FinishEating(Plato)), ProcessingResult::Ignored));
    assert!(o.published.is_empty());
}

#[test]
fn table_never_grants_more_than_three_forks() {
    let mut t = TableData::new();
    let mut o = WorkerContext::new();
    for p in [Plato, Sokrates, Aristoteles, Plato] {
        table_operational_dispatch(&mut t, &mut o, RequestLeftFork(p));
    }
    assert_eq!([false, false, false], t.available_forks());
    assert_eq!(1, t.waiting_count());
    assert_eq!(
        vec![(0, GrantLeftFork(Plato)), (0, GrantLeftFork(Sokrates)), (0, GrantLeftFork(Aristoteles))],
        o.published
    );
}

/// Checks a log: at most three forks are out at any time, and a
/// philosopher releases only a fork that it holds.
fn assert_forks_exclusive(log: &[DppEvent]) {
    let idx = |p: PhilosopherId| match p {
        Plato => 0,
        Sokrates => 1,
        Aristoteles => 2,
    };
    let mut held = [0usize; 3];
    for e in log {
        match *e {
            GrantLeftFork(p) | GrantRightFork(p) => held[idx(p)] += 1,
            ReleaseLeftFork(p) | ReleaseRightFork(p) => {
                assert!(held[idx(p)] > 0);
                held[idx(p)] -= 1;
            }
            _ => {}
        }
        assert!(held.iter().sum::<usize>() <= 3);
    }
}

#[test]
fn one_philosopher_eats_and_returns_to_thinking() {
    let mut philosophers = vec![
        FiniteStateMachine::new(philosopher_states(), PhilosopherData::new(Plato)),
        FiniteStateMachine::new(philosopher_states(), PhilosopherData::new(Sokrates)),
        FiniteStateMachine::new(philosopher_states(), PhilosopherData::new(Aristoteles)),
    ];
    let mut table = FiniteStateMachine::new(table_states(), TableData::new());
    let mut queue: VecDeque<DppEvent> = VecDeque::new();
    let mut log: Vec<DppEvent> = vec![];
    let mut visited = vec![philosophers[0].state_index()];
    queue.push_back(RequestLeftFork(Plato));
    let mut delivered = 0;
    while let Some(e) = queue.pop_front() {
        log.push(e);
        let mut o: WorkerContext<DppEvent> = WorkerContext::new();
        for p in philosophers.iter_mut() {
            p.dispatch(&mut o, e).unwrap();
        }
        table.dispatch(&mut o, e).unwrap();
        delivered += 1;
        if *visited.last().unwrap() != philosophers[0].state_index() {
            visited.push(philosophers[0].state_index());
        }
        if visited.len() == 4 {
            break;
        }
        queue.extend(o.published.into_iter().map(|(_, e)| e));
        assert!(delivered < 20);
    }
    assert_eq!(vec![0, 1, 2, 0], visited);
    assert_eq!(0, philosophers[1].state_index());
    assert_eq!(0, philosophers[2].state_index());
    assert_forks_exclusive(&log);
}

#[test]
fn contending_philosophers_never_share_a_fork() {
    let mut philosophers = vec![
        FiniteStateMachine::new(philosopher_states(), PhilosopherData::new(Plato)),
        FiniteStateMachine::new(philosopher_states(), PhilosopherData::new(Sokrates)),
        FiniteStateMachine::new(philosopher_states(), PhilosopherData::new(Aristoteles)),
    ];
    let mut table = FiniteStateMachine::new(table_states(), TableData::new());
    let mut o: WorkerContext<DppEvent> = WorkerContext::new();
    for p in philosophers.iter_mut() {
        p.start(&mut o);
    }
    table.start(&mut o);
    let mut queue: VecDeque<DppEvent> = o.take_published().into_iter().map(|(_, e)| e).collect();
    let mut log: Vec<DppEvent> = vec![];
    let mut delivered = 0;
    while let Some(e) = queue.pop_front() {
        log.push(e);
        for p in philosophers.iter_mut() {
            p.dispatch(&mut o, e).unwrap();
        }
        table.dispatch(&mut o, e).unwrap();
        queue.extend(o.take_published().into_iter().map(|(_, e)| e));
        delivered += 1;
        if delivered == 200 {
            break;
        }
    }
    let grants = log.iter().filter(|e| matches!(e, GrantLeftFork(_) | GrantRightFork(_))).count();
    assert!(grants >= 3);
    assert_forks_exclusive(&log);
}
