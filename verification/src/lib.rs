//! Health aggregation for a service: named probes, one combined verdict,
//! and the rules by which the verdict is refreshed and served.

pub mod api;
pub mod http;
pub mod probe;
pub mod registry;
pub mod router;
pub mod scheduler;
pub mod state;
pub mod text;
pub mod verdict;
