use rand::rngs::StdRng;
use rand::SeedableRng;
use santa::dispatcher::{
    separator, DispatcherAction, DispatcherAgent, DispatcherEvent, DispatcherPhase, GroupJob,
};
use santa::kind::WorkerType;
use santa::rate::{RateState, SpeedUpdate};
use santa::store::{ErrorKind, Operation, StoreValue};
use santa::supervisor::{Config, Plan, Task, DEFAULT_ELVES, DEFAULT_REINDEER};
use santa::worker::Variant;

fn ready(name: &str) -> DispatcherEvent {
    DispatcherEvent::GroupReady(StoreValue::Text(name.to_string()))
}

#[test]
fn reindeer_job_gets_the_reindeer_announcement() {
    let mut rng = StdRng::seed_from_u64(1);
    let rates = RateState::new();
    let mut agent = DispatcherAgent::new(Variant::Dynamic);
    assert!(matches!(agent.start(), DispatcherAction::AwaitGroup));
    assert_eq!(agent.start().operation(), Some(Operation::NewGroupReady));
    let action = agent.step(ready("reindeer"), &rates, &mut rng);
    assert_eq!(action.operation(), Some(Operation::DispatchGroup));
    match action {
        DispatcherAction::Dispatch { job, work, announcement } => {
            assert_eq!(job, GroupJob { kind: WorkerType::Reindeer });
            assert_eq!(work, "reindeer");
            assert_eq!(announcement, "Ho! Ho! Ho! let's deliver toys");
            assert_ne!(announcement, "Ho! Ho! Ho! let's meet in my study");
        }
        other => panic!("{:?}", other),
    }
    assert_eq!(
        agent.phase(),
        DispatcherPhase::Dispatching(GroupJob { kind: WorkerType::Reindeer })
    );
}

#[test]
fn elf_job_gets_the_elf_announcement() {
    let mut rng = StdRng::seed_from_u64(1);
    let rates = RateState::new();
    let mut agent = DispatcherAgent::new(Variant::Simple);
    match agent.step(ready("elves"), &rates, &mut rng) {
        DispatcherAction::Dispatch { job, work, announcement } => {
            assert_eq!(job.kind, WorkerType::Elf);
            assert_eq!(work, "elves");
            assert_eq!(announcement, "Ho! Ho! Ho! let's meet in my study");
        }
        other => panic!("{:?}", other),
    }
}

#[test]
fn dispatcher_releases_before_it_waits_again() {
    let mut rng = StdRng::seed_from_u64(4);
    let rates = RateState::new();
    let mut agent = DispatcherAgent::new(Variant::Dynamic);
    assert_eq!(agent.variant(), Variant::Dynamic);
    let mut dispatched = 0;
    let mut released = 0;
    for round in 0..4 {
        let name = if round % 2 == 0 { "elves" } else { "reindeer" };
        let action = agent.step(DispatcherEvent::GroupReady(StoreValue::Other), &rates, &mut rng);
        assert!(matches!(action, DispatcherAction::KeepWaiting));
        let action = agent.step(ready(name), &rates, &mut rng);
        assert!(matches!(action, DispatcherAction::Dispatch { .. }));
        dispatched += 1;
        assert_eq!(dispatched, released + 1);
        match agent.step(DispatcherEvent::Acknowledged, &rates, &mut rng) {
            DispatcherAction::WorkTogether { sleep_ms } => assert!(sleep_ms < 1505),
            other => panic!("{:?}", other),
        }
        assert_eq!(agent.phase(), DispatcherPhase::WorkingWithGroup);
        let action = agent.step(DispatcherEvent::Elapsed, &rates, &mut rng);
        assert!(matches!(action, DispatcherAction::Release));
        assert_eq!(action.operation(), Some(Operation::ReleaseGroup));
        released += 1;
        assert_eq!(agent.phase(), DispatcherPhase::Releasing);
        let action = agent.step(DispatcherEvent::Acknowledged, &rates, &mut rng);
        assert!(matches!(action, DispatcherAction::AwaitGroup));
        assert_eq!(agent.phase(), DispatcherPhase::AwaitingGroup);
        assert_eq!(dispatched, released);
    }
}

#[test]
fn second_notice_before_release_is_out_of_turn() {
    let mut rng = StdRng::seed_from_u64(4);
    let rates = RateState::new();
    let mut agent = DispatcherAgent::new(Variant::Dynamic);
    agent.step(ready("elves"), &rates, &mut rng);
    let action = agent.step(ready("reindeer"), &rates, &mut rng);
    assert!(matches!(action, DispatcherAction::Stop { reason: ErrorKind::OutOfTurn }));
    assert_eq!(agent.phase(), DispatcherPhase::Stopped(ErrorKind::OutOfTurn));
}

#[test]
fn simple_dispatcher_releases_at_once() {
    let mut rng = StdRng::seed_from_u64(4);
    let rates = RateState::new();
    let mut agent = DispatcherAgent::new(Variant::Simple);
    agent.step(ready("reindeer"), &rates, &mut rng);
    let action = agent.step(DispatcherEvent::Acknowledged, &rates, &mut rng);
    assert!(matches!(action, DispatcherAction::Release));
    let action = agent.step(DispatcherEvent::Acknowledged, &rates, &mut rng);
    assert!(matches!(action, DispatcherAction::AwaitGroup));
}

#[test]
fn time_with_the_group_follows_the_work_bound() {
    let mut rng = StdRng::seed_from_u64(4);
    let mut rates = RateState::new();
    rates.apply(SpeedUpdate { work_speed: Some(100), vacation_speed: Some(1) });
    let mut agent = DispatcherAgent::new(Variant::Dynamic);
    agent.step(ready("reindeer"), &rates, &mut rng);
    match agent.step(DispatcherEvent::Acknowledged, &rates, &mut rng) {
        DispatcherAction::WorkTogether { sleep_ms } => assert_eq!(sleep_ms, 0),
        other => panic!("{:?}", other),
    }
}

#[test]
fn values_that_are_no_text_are_passed_over() {
    let mut rng = StdRng::seed_from_u64(4);
    let rates = RateState::new();
    let mut agent = DispatcherAgent::new(Variant::Dynamic);
    let passed = vec![
        StoreValue::Other,
        StoreValue::Boolean(true),
        StoreValue::Id("reindeer".to_string()),
    ];
    for value in passed {
        let action = agent.step(DispatcherEvent::GroupReady(value), &rates, &mut rng);
        assert!(matches!(action, DispatcherAction::KeepWaiting));
        assert_eq!(action.operation(), None);
        assert_eq!(agent.phase(), DispatcherPhase::AwaitingGroup);
    }
}

#[test]
fn unknown_job_stops_the_dispatcher() {
    let mut rng = StdRng::seed_from_u64(4);
    let rates = RateState::new();
    for name in ["", "snowmen", "Reindeer"] {
        let mut agent = DispatcherAgent::new(Variant::Dynamic);
        let action = agent.step(ready(name), &rates, &mut rng);
        assert!(matches!(
            action,
            DispatcherAction::Stop { reason: ErrorKind::UnexpectedResponseShape }
        ));
        assert_eq!(agent.phase(), DispatcherPhase::Stopped(ErrorKind::UnexpectedResponseShape));
    }
}

#[test]
fn failed_call_stops_the_dispatcher_for_good() {
    let mut rng = StdRng::seed_from_u64(4);
    let rates = RateState::new();
    let mut agent = DispatcherAgent::new(Variant::Dynamic);
    agent.step(ready("elves"), &rates, &mut rng);
    let action = agent.step(DispatcherEvent::CallFailed, &rates, &mut rng);
    assert!(matches!(action, DispatcherAction::Stop { reason: ErrorKind::StoreCallFailed }));
    let action = agent.step(DispatcherEvent::Acknowledged, &rates, &mut rng);
    assert!(matches!(action, DispatcherAction::Stop { reason: ErrorKind::StoreCallFailed }));
    assert_eq!(agent.phase(), DispatcherPhase::Stopped(ErrorKind::StoreCallFailed));
}

#[test]
fn separator_line() {
    assert_eq!(separator(), "----------");
}

#[test]
fn default_plan_runs_the_dispatcher_and_both_pools() {
    let config = Config::new(Variant::Dynamic);
    assert_eq!(config.reindeer, 9);
    assert_eq!(config.elves, 10);
    assert_eq!(DEFAULT_REINDEER, 9);
    assert_eq!(DEFAULT_ELVES, 10);
    match config.plan() {
        Plan::Run { tasks } => {
            assert_eq!(tasks.len(), 20);
            assert_eq!(tasks[0], Task::Dispatcher);
            for task in &tasks[1..10] {
                assert_eq!(*task, Task::Worker(WorkerType::Reindeer));
            }
            for task in &tasks[10..] {
                assert_eq!(*task, Task::Worker(WorkerType::Elf));
            }
        }
        other => panic!("{:?}", other),
    }
}

#[test]
fn reset_starts_nothing() {
    let mut config = Config::new(Variant::Dynamic);
    config.reset = true;
    assert!(matches!(config.plan(), Plan::ResetAndExit));
    config.no_santa = true;
    config.reindeer = 0;
    assert!(matches!(config.plan(), Plan::ResetAndExit));
}

#[test]
fn plan_without_the_dispatcher() {
    let config =
        Config { reset: false, no_santa: true, reindeer: 2, elves: 1, variant: Variant::Simple };
    match config.plan() {
        Plan::Run { tasks } => assert_eq!(
            tasks,
            vec![
                Task::Worker(WorkerType::Reindeer),
                Task::Worker(WorkerType::Reindeer),
                Task::Worker(WorkerType::Elf),
            ]
        ),
        other => panic!("{:?}", other),
    }
}

#[test]
fn plan_with_empty_and_full_pools() {
    let config =
        Config { reset: false, no_santa: false, reindeer: 0, elves: 0, variant: Variant::Dynamic };
    match config.plan() {
        Plan::Run { tasks } => assert_eq!(tasks, vec![Task::Dispatcher]),
        other => panic!("{:?}", other),
    }
    let config = Config {
        reset: false,
        no_santa: false,
        reindeer: 255,
        elves: 255,
        variant: Variant::Dynamic,
    };
    match config.plan() {
        Plan::Run { tasks } => assert_eq!(tasks.len(), 511),
        other => panic!("{:?}", other),
    }
}
