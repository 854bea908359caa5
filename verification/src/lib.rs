//! A registry of locally running HTTP services and their last-observed
//! health status.
//!
//! The registry keeps a short, insertion-ordered list of service records,
//! each identified by its network port. A health probe against a service
//! yields a [`probe::ProbeOutcome`]; the registry turns that outcome into
//! an `online`/`offline` status and inserts or replaces the record for the
//! probed port.

pub mod endpoints;
pub mod probe;
pub mod record;
pub mod registry;
pub mod url;

pub use probe::ProbeOutcome;
pub use record::ServiceRecord;
pub use record::Status;
pub use registry::Registry;
