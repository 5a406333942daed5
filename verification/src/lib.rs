//! Estimates the offset between the local clock and a remote server's clock
//! from timestamped HTTPS round trips.

pub mod estimator;
pub mod instant;
pub mod logger;
pub mod phase;
pub mod report;
pub mod request;
pub mod sample;
pub mod scheduler;
pub mod session;
