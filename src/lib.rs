//! A periodic HTTP health checker: the classification of responses, the
//! acceptance rule for target URLs, the report lines, and the polling state
//! machine, with the HTTP client behind a small set of trusted wrappers.

pub mod outcome;
pub mod report;
pub mod target;
pub mod client;
pub mod monitor;
