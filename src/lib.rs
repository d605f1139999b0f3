//! A weather information tool server: exact temperature conversion, the
//! two-stage forecast lookup, report rendering, and a tool registry that routes
//! and validates invocations.

pub mod units;
pub mod weather;
pub mod registry;
pub mod std_io;
