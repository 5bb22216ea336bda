//! Resilient outbound HTTP client core.
//!
//! The crate owns a single logical request's lifecycle: concurrency admission,
//! attempt sequencing, failure classification, backoff computation, and
//! `Retry-After` compliance.  The attempt loop itself performs network I/O and
//! sleeps, so an async runner drives it; every decision the loop takes is a
//! verified function of this library.

pub mod adapters;
pub mod backoff;
pub mod classify;
pub mod config_payload;
pub mod errors;
pub mod executor;
pub mod logging;
pub mod marketstatus;
pub mod methods;
pub mod options;
pub mod response;
pub mod retry_after;
pub mod streaming;
pub mod text;
