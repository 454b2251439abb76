//! A test double for unreliable or slow upstream services.
//!
//! Every request is answered from its method and path alone. The library
//! decides what the answer is and hands it back as a [`Plan`]: an optional
//! log line to emit, a delay to wait out and the reply to send. Carrying the
//! plan out (logging, sleeping, writing to the socket) is left to the caller.

pub mod chance;
pub mod decimal;
pub mod handlers;
pub mod laws;
pub mod plan;
pub mod route;

pub use handlers::{
    dispatch, health_handler, latency_handler, percent_handler, percent_verdict, respond,
};
pub use plan::{Kind, Level, LogLine, Outcome, Plan, Reply};
pub use route::{route, Route};
