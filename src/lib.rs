//! The execution context handed to tests written from the point of view of a
//! network administrator: deterministic randomness, the chain's connection
//! details and a report sink, scoped to one test invocation.

pub mod account;
pub mod admin;
pub mod chain;
pub mod client;
pub mod context;
pub mod report;

pub use chain::ChainInfo;
pub use context::CoreContext;
pub use report::TestReport;
