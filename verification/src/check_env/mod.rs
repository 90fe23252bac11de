//! Development-environment checks: structured results, their evaluation
//! from raw probe output, and their formatting.

pub mod env;
pub mod formatter;
pub mod probe;
pub mod types;
