use rest_actuator::api::{
    ActuatorRouter, ActuatorRouterBuilder, ActuatorState, AggregateState, DatabaseHealthCheck,
    Dispatch, ProbeStatus, StateChecker, Trigger,
};
use std::sync::atomic::{AtomicUsize, Ordering};
use std::sync::Arc;

/// A probe that counts how often it is asked.
#[derive(Debug)]
struct CountingCheck {
    ready: bool,
    alive: bool,
    asked: Arc<AtomicUsize>,
}

impl StateChecker for CountingCheck {
    fn is_ready(&self) -> bool {
        self.asked.fetch_add(1, Ordering::SeqCst);
        self.ready
    }

    fn is_alive(&self) -> bool {
        self.asked.fetch_add(1, Ordering::SeqCst);
        self.alive
    }
}

fn database(ready: bool, alive: bool) -> Box<dyn StateChecker> {
    Box::new(DatabaseHealthCheck { ready, alive })
}

fn counting(ready: bool, alive: bool, asked: &Arc<AtomicUsize>) -> Box<dyn StateChecker> {
    Box::new(CountingCheck { ready, alive, asked: asked.clone() })
}

fn status_of(outcome: Dispatch) -> u16 {
    match outcome {
        Dispatch::Answered(response) => response.status,
        other => panic!("no answer: {:?}", other),
    }
}

#[test]
fn test_actuator() {
    let mut actuator_state = ActuatorState::new();

    actuator_state.add_health_checker(
        "database".to_string(),
        DatabaseHealthCheck { ready: true, alive: true },
    );

    println!("{:?}", actuator_state);

    actuator_state.add_health_checker(
        "database".to_string(),
        DatabaseHealthCheck { ready: false, alive: false },
    );

    println!("{:?}", actuator_state);

    actuator_state.add_health_checker(
        "database".to_string(),
        DatabaseHealthCheck { ready: true, alive: true },
    );

    println!("{:?}", actuator_state);

    assert_eq!(actuator_state.health_checker_count(), 1);
    assert!(actuator_state.has_health_checker("database"));
}

#[test]
fn inject_actuator() {
    let mut actuator_state = ActuatorState::new();

    actuator_state.add_health_checker(
        "database".to_string(),
        DatabaseHealthCheck { ready: true, alive: true },
    );

    let extention: Option<ActuatorState<DatabaseHealthCheck>> = Some(actuator_state);

    let app = ActuatorRouterBuilder::new(ActuatorRouter::new())
        .with_readiness_route()
        .with_liveness_route()
        .with_info_route()
        .with_health_route()
        .with_layer(extention)
        .build();

    assert_eq!(status_of(app.handle("/actuator/health")), 200);
    assert_eq!(status_of(app.handle("/actuator/info")), 200);
    assert_eq!(status_of(app.handle("/actuator/health/liveness")), 200);
    assert_eq!(status_of(app.handle("/actuator/health/readiness")), 200);
}

#[test]
fn inject_actuator_with_failing_database() {
    let mut actuator_state = ActuatorState::new();
    actuator_state.add_health_checker(
        "database".to_string(),
        DatabaseHealthCheck { ready: false, alive: false },
    );

    let app = ActuatorRouterBuilder::new(ActuatorRouter::new())
        .with_readiness_route()
        .with_liveness_route()
        .with_info_route()
        .with_health_route()
        .with_layer(Some(actuator_state))
        .build();

    assert_eq!(status_of(app.handle("/actuator/health")), 503);
    assert_eq!(status_of(app.handle("/actuator/info")), 503);
    assert_eq!(status_of(app.handle("/actuator/health/liveness")), 503);
    assert_eq!(status_of(app.handle("/actuator/health/readiness")), 503);
}

#[test]
fn new_engine_is_ready_and_alive() {
    let state: ActuatorState<DatabaseHealthCheck> = ActuatorState::new();
    assert_eq!(
        state.verdict(),
        AggregateState { is_ready: true, is_alive: true, is_healthy: true }
    );
    assert_eq!(state.health_checker_count(), 0);
    assert!(!state.is_state_check_pending());
    assert!(state.readiness_snapshot());
    assert!(state.liveness_snapshot());
}

#[test]
fn refresh_without_probes_stays_optimistic() {
    let mut state: ActuatorState<DatabaseHealthCheck> = ActuatorState::new();
    let observed = state.check_all_health();
    assert!(observed.is_empty());
    assert_eq!(
        state.verdict(),
        AggregateState { is_ready: true, is_alive: true, is_healthy: true }
    );
}

#[test]
fn healthy_probes_give_a_healthy_verdict() {
    let mut state = ActuatorState::new();
    state.add_health_checker("database".to_string(), database(true, true));
    state.add_health_checker("cache".to_string(), database(true, true));
    state.add_health_checker("queue".to_string(), database(true, true));
    let observed = state.check_all_health();
    assert_eq!(
        observed,
        vec![ProbeStatus::Healthy, ProbeStatus::Healthy, ProbeStatus::Healthy]
    );
    assert_eq!(
        state.verdict(),
        AggregateState { is_ready: true, is_alive: true, is_healthy: true }
    );
}

#[test]
fn healthy_probes_heal_a_failed_verdict() {
    let mut state = ActuatorState::new();
    state.add_health_checker("database".to_string(), database(false, false));
    state.check_all_health();
    assert!(!state.verdict().is_healthy);
    state.add_health_checker("database".to_string(), database(true, true));
    state.check_all_health();
    assert_eq!(
        state.verdict(),
        AggregateState { is_ready: true, is_alive: true, is_healthy: true }
    );
}

#[test]
fn dead_probe_vetoes_whatever_the_others_say() {
    let mut state = ActuatorState::new();
    state.add_health_checker("cache".to_string(), database(true, true));
    state.add_health_checker("database".to_string(), database(true, false));
    state.add_health_checker("queue".to_string(), database(false, true));
    let observed = state.check_all_health();
    assert_eq!(observed, vec![ProbeStatus::Healthy, ProbeStatus::Dead]);
    assert!(!state.verdict().is_alive);
    assert!(!state.verdict().is_healthy);
    assert!(state.verdict().is_ready);
}

#[test]
fn probe_that_is_not_ready_is_blamed_before_a_dead_one() {
    let mut state = ActuatorState::new();
    state.add_health_checker("cache".to_string(), database(false, true));
    state.add_health_checker("database".to_string(), database(false, false));
    let observed = state.check_all_health();
    assert_eq!(observed, vec![ProbeStatus::NotReady]);
    assert_eq!(
        state.verdict(),
        AggregateState { is_ready: false, is_alive: true, is_healthy: false }
    );
    assert!(!state.readiness_snapshot());
    assert!(!state.liveness_snapshot());
}

#[test]
fn no_probe_is_asked_after_the_first_failure() {
    let first = Arc::new(AtomicUsize::new(0));
    let second = Arc::new(AtomicUsize::new(0));
    let third = Arc::new(AtomicUsize::new(0));
    let mut state = ActuatorState::new();
    state.add_health_checker("first".to_string(), counting(true, true, &first));
    state.add_health_checker("second".to_string(), counting(true, false, &second));
    state.add_health_checker("third".to_string(), counting(true, true, &third));
    let observed = state.check_all_health();
    assert_eq!(observed.len(), 2);
    assert_eq!(first.load(Ordering::SeqCst), 2);
    assert_eq!(second.load(Ordering::SeqCst), 1);
    assert_eq!(third.load(Ordering::SeqCst), 0);
}

#[test]
fn request_time_pass_asks_the_probes_behind_a_failure() {
    let first = Arc::new(AtomicUsize::new(0));
    let second = Arc::new(AtomicUsize::new(0));
    let third = Arc::new(AtomicUsize::new(0));
    let mut state = ActuatorState::new();
    state.add_health_checker("first".to_string(), counting(true, true, &first));
    state.add_health_checker("second".to_string(), counting(false, true, &second));
    state.add_health_checker("third".to_string(), counting(true, true, &third));
    assert!(!state.readiness_snapshot());
    assert_eq!(first.load(Ordering::SeqCst), 1);
    assert_eq!(second.load(Ordering::SeqCst), 1);
    assert_eq!(third.load(Ordering::SeqCst), 1);
    assert!(state.liveness_snapshot());
    assert_eq!(first.load(Ordering::SeqCst), 2);
    assert_eq!(second.load(Ordering::SeqCst), 2);
    assert_eq!(third.load(Ordering::SeqCst), 2);
}

#[test]
fn request_asks_no_probe_where_the_cached_flag_is_clear() {
    let asked = Arc::new(AtomicUsize::new(0));
    let mut state = ActuatorState::new();
    state.add_health_checker("database".to_string(), counting(true, false, &asked));
    state.check_all_health();
    assert_eq!(asked.load(Ordering::SeqCst), 1);
    assert!(!state.liveness_snapshot());
    assert_eq!(asked.load(Ordering::SeqCst), 1);
}

#[test]
fn replaced_probe_is_never_asked_again() {
    let old = Arc::new(AtomicUsize::new(0));
    let new = Arc::new(AtomicUsize::new(0));
    let mut state = ActuatorState::new();
    state.add_health_checker("database".to_string(), counting(false, false, &old));
    state.add_health_checker("database".to_string(), counting(true, true, &new));
    assert_eq!(state.health_checker_count(), 1);
    state.check_all_health();
    assert_eq!(old.load(Ordering::SeqCst), 0);
    assert_eq!(new.load(Ordering::SeqCst), 2);
    assert_eq!(
        state.verdict(),
        AggregateState { is_ready: true, is_alive: true, is_healthy: true }
    );
    assert!(state.readiness_snapshot());
    assert!(state.liveness_snapshot());
    assert_eq!(old.load(Ordering::SeqCst), 0);
}

#[test]
fn replacement_keeps_the_place_of_the_name() {
    let mut state = ActuatorState::new();
    state.add_health_checker("a".to_string(), database(true, true));
    state.add_health_checker("b".to_string(), database(true, true));
    state.add_health_checker("c".to_string(), database(true, true));
    state.add_health_checker("b".to_string(), database(false, true));
    assert_eq!(state.health_checker_count(), 3);
    let observed = state.check_all_health();
    assert_eq!(observed, vec![ProbeStatus::Healthy, ProbeStatus::NotReady]);
}

#[test]
fn engine_shows_its_registry() {
    let mut state = ActuatorState::new();
    state.add_health_checker("database".to_string(), database(true, true));
    state.add_health_checker("cache".to_string(), database(true, false));
    let registry = state.health_checkers();
    assert_eq!(registry.len(), 2);
    assert_eq!(registry.entry(1).map(|entry| entry.0), Some("cache"));
    assert_eq!(registry.position("database"), Some(0));
}

#[test]
fn database_probe_replaced_down_and_up_again() {
    let mut state = ActuatorState::new();

    state.add_health_checker("database".to_string(), database(true, true));
    state.check_all_health();
    assert_eq!(state.readiness_snapshot(), true);
    assert_eq!(state.liveness_snapshot(), true);

    state.add_health_checker("database".to_string(), database(false, false));
    state.check_all_health();
    assert_eq!(state.readiness_snapshot(), false);
    assert_eq!(state.liveness_snapshot(), false);

    state.add_health_checker("database".to_string(), database(true, true));
    state.check_all_health();
    assert_eq!(state.readiness_snapshot(), true);
    assert_eq!(state.liveness_snapshot(), true);
}

#[test]
fn cached_flag_and_request_time_answer_can_differ() {
    let mut state = ActuatorState::new();
    state.add_health_checker("database".to_string(), database(false, false));
    state.check_all_health();
    // The dead probe is blamed on liveness; readiness keeps its cached value.
    assert_eq!(
        state.verdict(),
        AggregateState { is_ready: true, is_alive: false, is_healthy: false }
    );
    // A request asks the probes again and hears that the database is not ready.
    assert!(!state.readiness_snapshot());
}

#[test]
fn trigger_fills_the_slot_and_the_signal_turn_empties_it() {
    let mut state = ActuatorState::new();
    state.add_health_checker("database".to_string(), database(true, true));
    assert!(!state.is_state_check_pending());
    state.trigger_state_check();
    assert!(state.is_state_check_pending());
    state.trigger_state_check();
    assert!(state.is_state_check_pending());
    state.state_check_step(Trigger::Signal);
    assert!(!state.is_state_check_pending());
}

#[test]
fn timer_turn_leaves_the_request_in_its_slot() {
    let mut state = ActuatorState::new();
    state.add_health_checker("database".to_string(), database(true, false));
    state.trigger_state_check();
    let observed = state.state_check_step(Trigger::Timer);
    assert_eq!(observed, vec![ProbeStatus::Dead]);
    assert!(state.is_state_check_pending());
    assert!(!state.verdict().is_alive);
}

#[test]
fn subscriber_hears_the_verdict_computed_after_the_trigger() {
    let mut state = ActuatorState::new();
    state.add_health_checker("database".to_string(), database(true, true));
    state.check_all_health();

    let mut receiver = state.create_state_check_receiver();
    assert_eq!(receiver.try_recv(&state), None);

    state.add_health_checker("database".to_string(), database(true, false));
    state.trigger_state_check();
    // Asked for, not yet served: the cached verdict is no news.
    assert_eq!(receiver.try_recv(&state), None);

    state.state_check_step(Trigger::Signal);
    assert_eq!(
        receiver.try_recv(&state),
        Some(AggregateState { is_ready: true, is_alive: false, is_healthy: false })
    );
    assert_eq!(receiver.try_recv(&state), None);
}

#[test]
fn slow_subscriber_hears_only_the_last_refresh() {
    let mut state = ActuatorState::new();
    let mut receiver = state.create_state_check_receiver();
    state.add_health_checker("database".to_string(), database(false, true));
    state.check_all_health();
    state.add_health_checker("database".to_string(), database(true, true));
    state.check_all_health();
    assert_eq!(
        receiver.try_recv(&state),
        Some(AggregateState { is_ready: true, is_alive: true, is_healthy: true })
    );
    assert_eq!(receiver.try_recv(&state), None);
}
