//! Watches a ledger's transaction stream and reports the transfers whose value
//! reaches a threshold.

pub mod amount;
pub mod error;
pub mod lifecycle;
pub mod pipeline;
pub mod report;
pub mod scanner;
pub mod signal;
pub mod threshold;
pub mod transaction;
pub mod watcher;
pub mod wide;
