use rest_actuator::api::{
    health_handler, info_handler, liveness_handler, readiness_handler, serve, status_body,
    ActuatorRouter, ActuatorRouterBuilder, ActuatorState, Dispatch, Endpoint, HealthResponse,
    MountedRoute, StateChecker, STATUS_OK, STATUS_SERVICE_UNAVAILABLE,
};

#[derive(Debug)]
struct Fixed {
    ready: bool,
    alive: bool,
}

impl StateChecker for Fixed {
    fn is_ready(&self) -> bool {
        self.ready
    }

    fn is_alive(&self) -> bool {
        self.alive
    }
}

fn engine(ready: bool, alive: bool) -> ActuatorState<Fixed> {
    let mut state = ActuatorState::new();
    state.add_health_checker("database".to_string(), Fixed { ready, alive });
    state
}

fn answer(status: u16, json_content_type: bool, body: &str) -> HealthResponse {
    HealthResponse { status, json_content_type, body: body.to_string() }
}

#[test]
fn status_codes() {
    assert_eq!(STATUS_OK, 200);
    assert_eq!(STATUS_SERVICE_UNAVAILABLE, 503);
}

#[test]
fn status_body_is_compact_json() {
    assert_eq!(status_body(true), "{\"status\":\"UP\"}");
    assert_eq!(status_body(false), "{\"status\":\"DOWN\"}");
}

#[test]
fn status_body_parses_back() {
    let up: serde_json::Value = serde_json::from_str(&status_body(true)).unwrap();
    assert_eq!(up.get("status").and_then(|word| word.as_str()), Some("UP"));
    let down: serde_json::Value = serde_json::from_str(&status_body(false)).unwrap();
    assert_eq!(down.get("status").and_then(|word| word.as_str()), Some("DOWN"));
}

#[test]
fn endpoint_paths() {
    assert_eq!(Endpoint::Health.path(), "/actuator/health");
    assert_eq!(Endpoint::Readiness.path(), "/actuator/health/readiness");
    assert_eq!(Endpoint::Liveness.path(), "/actuator/health/liveness");
    assert_eq!(Endpoint::Info.path(), "/actuator/info");
}

#[test]
fn endpoint_from_path() {
    assert_eq!(Endpoint::from_path("/actuator/health"), Some(Endpoint::Health));
    assert_eq!(Endpoint::from_path("/actuator/health/readiness"), Some(Endpoint::Readiness));
    assert_eq!(Endpoint::from_path("/actuator/health/liveness"), Some(Endpoint::Liveness));
    assert_eq!(Endpoint::from_path("/actuator/info"), Some(Endpoint::Info));
    assert_eq!(Endpoint::from_path("/actuator"), None);
    assert_eq!(Endpoint::from_path("/actuator/health/"), None);
    assert_eq!(Endpoint::from_path(""), None);
}

#[test]
fn health_needs_ready_and_alive() {
    let up = answer(200, true, "{\"status\":\"UP\"}");
    let down = answer(503, true, "{\"status\":\"DOWN\"}");
    assert_eq!(Endpoint::Health.respond(true, true), up);
    assert_eq!(Endpoint::Health.respond(true, false), down);
    assert_eq!(Endpoint::Health.respond(false, true), down);
    assert_eq!(Endpoint::Health.respond(false, false), down);
}

#[test]
fn readiness_reports_ready_alone() {
    let up = answer(200, false, "{\"status\":\"UP\"}");
    let down = answer(503, false, "{\"status\":\"DOWN\"}");
    assert_eq!(Endpoint::Readiness.respond(true, true), up);
    assert_eq!(Endpoint::Readiness.respond(true, false), up);
    assert_eq!(Endpoint::Readiness.respond(false, true), down);
    assert_eq!(Endpoint::Readiness.respond(false, false), down);
}

#[test]
fn liveness_reports_alive_alone() {
    let up = answer(200, false, "{\"status\":\"UP\"}");
    let down = answer(503, false, "{\"status\":\"DOWN\"}");
    assert_eq!(Endpoint::Liveness.respond(true, true), up);
    assert_eq!(Endpoint::Liveness.respond(false, true), up);
    assert_eq!(Endpoint::Liveness.respond(true, false), down);
    assert_eq!(Endpoint::Liveness.respond(false, false), down);
}

#[test]
fn info_has_an_empty_body() {
    assert_eq!(Endpoint::Info.respond(true, true), answer(200, true, ""));
    assert_eq!(Endpoint::Info.respond(true, false), answer(503, true, ""));
    assert_eq!(Endpoint::Info.respond(false, true), answer(503, true, ""));
    assert_eq!(Endpoint::Info.respond(false, false), answer(503, true, ""));
}

#[test]
fn handlers_on_an_engine_without_probes() {
    let state: ActuatorState<Fixed> = ActuatorState::new();
    assert_eq!(health_handler(&state), answer(200, true, "{\"status\":\"UP\"}"));
    assert_eq!(info_handler(&state), answer(200, true, ""));
    assert_eq!(readiness_handler(&state), answer(200, false, "{\"status\":\"UP\"}"));
    assert_eq!(liveness_handler(&state), answer(200, false, "{\"status\":\"UP\"}"));
}

#[test]
fn handlers_ask_the_probes() {
    let state = engine(false, true);
    assert_eq!(health_handler(&state), answer(503, true, "{\"status\":\"DOWN\"}"));
    assert_eq!(info_handler(&state), answer(503, true, ""));
    assert_eq!(readiness_handler(&state), answer(503, false, "{\"status\":\"DOWN\"}"));
    assert_eq!(liveness_handler(&state), answer(200, false, "{\"status\":\"UP\"}"));

    let state = engine(true, false);
    assert_eq!(health_handler(&state), answer(503, true, "{\"status\":\"DOWN\"}"));
    assert_eq!(readiness_handler(&state), answer(200, false, "{\"status\":\"UP\"}"));
    assert_eq!(liveness_handler(&state), answer(503, false, "{\"status\":\"DOWN\"}"));
}

#[test]
fn handlers_keep_to_the_cached_verdict() {
    let mut state = engine(true, false);
    state.check_all_health();
    // The probe recovers, the cache has not been refreshed yet.
    state.add_health_checker("database".to_string(), Fixed { ready: true, alive: true });
    assert_eq!(liveness_handler(&state).status, 503);
    assert_eq!(readiness_handler(&state).status, 200);
    assert_eq!(health_handler(&state).status, 503);
    state.check_all_health();
    assert_eq!(liveness_handler(&state).status, 200);
    assert_eq!(health_handler(&state).status, 200);
}

#[test]
fn serve_picks_the_handler() {
    let state = engine(false, true);
    assert_eq!(serve(Endpoint::Health, &state), health_handler(&state));
    assert_eq!(serve(Endpoint::Info, &state), info_handler(&state));
    assert_eq!(serve(Endpoint::Readiness, &state), readiness_handler(&state));
    assert_eq!(serve(Endpoint::Liveness, &state), liveness_handler(&state));
}

#[test]
fn empty_router_finds_nothing() {
    let router: ActuatorRouter<Fixed> = ActuatorRouter::new();
    assert_eq!(router.handle("/actuator/health"), Dispatch::NotFound);
    assert_eq!(router.handle("/does-not-exist"), Dispatch::NotFound);
    assert!(!router.has_route(Endpoint::Health));
    assert!(router.routes().is_empty());
}

#[test]
fn route_without_a_layer_misses_its_state() {
    let router: ActuatorRouter<Fixed> = ActuatorRouterBuilder::new(ActuatorRouter::new())
        .with_health_route()
        .with_layer(None)
        .build();
    assert_eq!(router.handle("/actuator/health"), Dispatch::MissingState(Endpoint::Health));
    assert_eq!(router.handle("/actuator/info"), Dispatch::NotFound);
}

#[test]
fn layer_covers_the_routes_mounted_before_it() {
    let builder = ActuatorRouterBuilder::new(ActuatorRouter::new())
        .with_health_route()
        .with_layer(Some(engine(true, true)))
        .with_info_route();
    assert!(builder.has_route(Endpoint::Health));
    assert!(builder.has_route(Endpoint::Info));
    assert!(!builder.has_route(Endpoint::Readiness));
    let router = builder.build();
    assert_eq!(
        router.routes(),
        vec![
            MountedRoute { endpoint: Endpoint::Health, layer: Some(0) },
            MountedRoute { endpoint: Endpoint::Info, layer: None },
        ]
    );
    assert_eq!(
        router.handle("/actuator/health"),
        Dispatch::Answered(answer(200, true, "{\"status\":\"UP\"}"))
    );
    assert_eq!(router.handle("/actuator/info"), Dispatch::MissingState(Endpoint::Info));
}

#[test]
fn second_layer_covers_only_what_the_first_left() {
    let router = ActuatorRouterBuilder::new(ActuatorRouter::new())
        .with_readiness_route()
        .with_layer(Some(engine(true, true)))
        .with_liveness_route()
        .with_layer(Some(engine(false, false)))
        .build();
    assert_eq!(
        router.routes(),
        vec![
            MountedRoute { endpoint: Endpoint::Readiness, layer: Some(0) },
            MountedRoute { endpoint: Endpoint::Liveness, layer: Some(1) },
        ]
    );
    assert_eq!(
        router.handle("/actuator/health/readiness"),
        Dispatch::Answered(answer(200, false, "{\"status\":\"UP\"}"))
    );
    assert_eq!(
        router.handle("/actuator/health/liveness"),
        Dispatch::Answered(answer(503, false, "{\"status\":\"DOWN\"}"))
    );
}

#[test]
fn router_comes_apart_into_routes_and_states() {
    let router = ActuatorRouterBuilder::new(ActuatorRouter::new())
        .with_health_route()
        .with_layer(Some(engine(true, true)))
        .build();
    let (routes, states) = router.into_parts();
    assert_eq!(routes, vec![MountedRoute { endpoint: Endpoint::Health, layer: Some(0) }]);
    assert_eq!(states.len(), 1);
    assert_eq!(states[0].health_checker_count(), 1);
}
