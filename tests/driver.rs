use forkbench::driver::{
    accounting_size, normalized_metric, Driver, DriverAction, DriverEvent, DriverFault,
    DriverPhase, Report,
};
use forkbench::stats::Statistics;

#[test]
fn one_configuration_is_measured_and_reported() {
    let mut d = Driver::new(vec![(2, 10)], 4);
    assert_eq!(d.step(DriverEvent::Done), DriverAction::ResetStats);
    assert_eq!(d.step(DriverEvent::Done), DriverAction::ReadClock);
    assert_eq!(
        d.step(DriverEvent::Clock(1_000)),
        DriverAction::SpawnWorker { index: 0, cpu: 0, thread_count: 2, workload_size: 10 }
    );
    assert_eq!(
        d.step(DriverEvent::Done),
        DriverAction::SpawnWorker { index: 1, cpu: 1, thread_count: 2, workload_size: 10 }
    );
    assert_eq!(d.step(DriverEvent::Done), DriverAction::JoinAll);
    assert_eq!(d.step(DriverEvent::Joined { unreaped: 0 }), DriverAction::ReadClock);
    assert_eq!(d.step(DriverEvent::Clock(5_000)), DriverAction::ReadCounters);
    let action = d.step(DriverEvent::Counters(Statistics::from_counters(6_000, 0)));
    assert_eq!(
        action,
        DriverAction::Emit(Report {
            thread_count: 2,
            workload_size: 10,
            accounting_size: 180,
            vm_cycles: 6_000,
            elapsed: 4_000,
            metric_micros: Some(750_000),
        })
    );
    assert_eq!(d.step(DriverEvent::Done), DriverAction::Finish);
    assert_eq!(d.phase(), DriverPhase::Finished);
}

#[test]
fn workers_spread_over_processors() {
    let mut d = Driver::new(vec![(3, 1)], 2);
    d.step(DriverEvent::Done);
    d.step(DriverEvent::Done);
    d.step(DriverEvent::Clock(0));
    d.step(DriverEvent::Done);
    assert_eq!(
        d.step(DriverEvent::Done),
        DriverAction::SpawnWorker { index: 2, cpu: 0, thread_count: 3, workload_size: 1 }
    );
}

fn run_to_counters(d: &mut Driver) {
    d.step(DriverEvent::Done);
    d.step(DriverEvent::Done);
    d.step(DriverEvent::Clock(10));
    d.step(DriverEvent::Done);
    d.step(DriverEvent::Joined { unreaped: 0 });
    d.step(DriverEvent::Clock(20));
}

#[test]
fn residual_workers_abort_the_run() {
    let mut d = Driver::new(vec![(1, 1), (1, 2)], 1);
    run_to_counters(&mut d);
    assert_eq!(
        d.step(DriverEvent::Counters(Statistics::from_counters(5, 1))),
        DriverAction::Abort(DriverFault::WorkersLeftRunning)
    );
    assert_eq!(d.phase(), DriverPhase::Failed);
}

#[test]
fn unreaped_workers_abort_the_run() {
    let mut d = Driver::new(vec![(1, 1)], 1);
    d.step(DriverEvent::Done);
    d.step(DriverEvent::Done);
    d.step(DriverEvent::Clock(10));
    d.step(DriverEvent::Done);
    assert_eq!(
        d.step(DriverEvent::Joined { unreaped: 1 }),
        DriverAction::Abort(DriverFault::UnreapedWorkers)
    );
}

#[test]
fn unexpected_event_aborts_the_run() {
    let mut d = Driver::new(vec![(1, 1)], 1);
    assert_eq!(
        d.step(DriverEvent::Clock(3)),
        DriverAction::Abort(DriverFault::UnexpectedEvent)
    );
}

#[test]
fn empty_run_finishes_at_once() {
    let mut d = Driver::new(vec![], 8);
    assert_eq!(d.step(DriverEvent::Done), DriverAction::Finish);
}

#[test]
fn configurations_follow_in_order() {
    let mut d = Driver::new(vec![(1, 1), (1, 2)], 1);
    run_to_counters(&mut d);
    let first = d.step(DriverEvent::Counters(Statistics::from_counters(5, 0)));
    assert!(matches!(first, DriverAction::Emit(r) if r.workload_size == 1));
    run_to_counters(&mut d);
    let second = d.step(DriverEvent::Counters(Statistics::from_counters(5, 0)));
    assert!(matches!(second, DriverAction::Emit(r) if r.workload_size == 2));
}

#[test]
fn metric_is_rounded_millionths() {
    assert_eq!(normalized_metric(6_000, 4_000, 2), Some(750_000));
    assert_eq!(normalized_metric(1, 3, 1), Some(333_333));
    assert_eq!(normalized_metric(2, 3, 1), Some(666_667));
    assert_eq!(normalized_metric(1, 2_000_000, 1), Some(1));
    assert_eq!(normalized_metric(1, 2_000_001, 1), Some(0));
    assert_eq!(normalized_metric(5, 0, 1), None);
    assert_eq!(normalized_metric(5, 7, 0), None);
    assert_eq!(normalized_metric(u64::MAX, u64::MAX, u64::MAX), Some(0));
}

#[test]
fn accounting_size_counts_instructions() {
    assert_eq!(accounting_size(10), 180);
    assert_eq!(accounting_size(u64::MAX), u64::MAX as u128 * 18);
}
