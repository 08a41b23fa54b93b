//! Configuration values for a host application: a base URL, an optional
//! auth token and the name of a preference store, each a small state with
//! its own operations, and the rule for locks that came back poisoned.

pub mod defaults;
pub mod fields;
pub mod lock;
