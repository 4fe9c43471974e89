//! A liveness endpoint: a stateless handler that always answers with the
//! same JSON success payload.
pub mod health;

pub use health::{health, STATUS_OK, health_response, invocations_agree, HealthResponse};
