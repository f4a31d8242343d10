//! Core logic of a field device's onboarding and identity lifecycle: the
//! onboarding state machine that sequences network provisioning and
//! device-code authorization, the device-authorization polling protocol and
//! its response taxonomy, the token wallet, the bounded-retry / error-budget
//! scheduler, and the steady-state check-in cycle.
//!
//! All I/O (the short-range control channel, the network-join driver, the
//! HTTP transport, the durable key-value partition, time synchronization and
//! deep sleep) lives outside this crate; the functions here take the outcome
//! of each outside step as a plain value and decide what happens next.

pub mod auth0;
pub mod codec;
pub mod control;
pub mod cycle;
pub mod flow;
pub mod mycelium;
pub mod onboarding;
pub mod sched;
pub mod settings;
pub mod tokens;
pub mod wifi;
