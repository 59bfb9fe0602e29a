//! Startup shell of a desktop application host: a builder that accumulates
//! plugin registrations and a generated context, a one-time initialization
//! hook, and a runner state machine that sequences construction, the hook,
//! and the hand-off to the host framework's event loop.

pub mod builder;
pub mod runner;
