//! A service supervision engine: probes independently configured network
//! services (or local commands), evaluates each probe against expected
//! success criteria, triggers bounded fallback actions on failure, tracks
//! TLS certificate expiry, and keeps a metrics registry that an exposition
//! server can render.
//!
//! The modules, leaves first: [`text`] and [`table`] hold the string and
//! name-keyed-table groundwork; [`config`] is the service data model with
//! its load-time validation; [`pattern`] compiles body patterns; [`client`]
//! and [`request`] build the probe client and request and evaluate the
//! response; [`fallback`] admits and counts fallback attempts; [`metrics`]
//! is the registry every iteration records into; [`ssl`] computes
//! certificate expiry; [`run`] holds the scheduler's per-iteration
//! decisions; [`globals`] the shared timing helpers.

pub mod client;
pub mod config;
pub mod fallback;
pub mod globals;
pub mod metrics;
pub mod pattern;
pub mod request;
pub mod run;
pub mod ssl;
pub mod table;
pub mod text;
