//! Watch-drift measurement engine: reference-time arithmetic, capture-session
//! decisions, minute-ambiguity resolution, and durable measurement records.

pub mod capture;
pub mod engine;
pub mod resolver;
pub mod store;
pub mod timeref;
