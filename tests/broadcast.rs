use bus::Bus;

use qlrl::dpp::{DppEvent, PhilosopherId};
use qlrl::runtime::ContextEvent;

#[test]
fn every_subscriber_receives_every_event_in_one_order() {
    let mut fan_out: Bus<ContextEvent<DppEvent>> = Bus::new(16);
    let mut readers = vec![fan_out.add_rx(), fan_out.add_rx(), fan_out.add_rx(), fan_out.add_rx()];
    let sent = vec![
        DppEvent::RequestLeftFork(PhilosopherId::Plato),
        DppEvent::GrantLeftFork(PhilosopherId::Plato),
        DppEvent::RequestRightFork(PhilosopherId::Sokrates),
    ];
    fan_out.broadcast(ContextEvent::Start);
    for e in sent.iter() {
        fan_out.broadcast(ContextEvent::Envelope(*e));
    }
    fan_out.broadcast(ContextEvent::Stop);
    for rx in readers.iter_mut() {
        assert!(matches!(rx.recv().unwrap(), ContextEvent::Start));
        for e in sent.iter() {
            match rx.recv().unwrap() {
                ContextEvent::Envelope(got) => assert_eq!(*e, got),
                other => panic!("unexpected {:?}", other),
            }
        }
        assert!(matches!(rx.recv().unwrap(), ContextEvent::Stop));
        assert!(rx.try_recv().is_err());
    }
}
