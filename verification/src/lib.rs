//! A verified core for a movie record service: the in-memory record store and
//! the service in front of it, the gateway that turns HTTP requests into calls
//! of that service, and the propagation of trace context between the two.

pub mod gateway;
pub mod metrics;
pub mod movie;
pub mod procfs;
pub mod propagation;
pub mod server;
pub mod status;
pub mod store;
pub mod text;
pub mod trace;
