//! The items of the library under one path.

pub use crate::http::{
    health_handler, info_handler, liveness_handler, readiness_handler, serve, status_body,
    Endpoint, HealthResponse, STATUS_OK, STATUS_SERVICE_UNAVAILABLE,
};
pub use crate::probe::{
    ask, examine, Capability, DatabaseHealthCheck, ProbeStatus, StateChecker,
};
pub use crate::registry::{conjunction, ProbeRegistry};
pub use crate::router::{ActuatorRouter, ActuatorRouterBuilder, Dispatch, MountedRoute};
pub use crate::scheduler::{
    SchedulerAction, SchedulerEvent, SchedulerState, Trigger, REFRESH_INTERVAL_SECS,
};
pub use crate::state::{ActuatorState, StateCheckReceiver};
pub use crate::text::same_text;
pub use crate::verdict::AggregateState;
