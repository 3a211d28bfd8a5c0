//! The failures that end a run.

use crate::transaction::TxHash;
use vstd::prelude::*;

verus! {

/// A failure that ends the watcher's work.
#[derive(Clone, Copy, Debug, PartialEq, Eq)]
pub enum WatchError {
    /// The ledger service could not be reached.
    Transport,
    /// The ledger service has no block at the height it gave as the latest.
    BlockNotFound(u64),
    /// A block names a transaction that the ledger service does not know.
    NotFoundInconsistency(TxHash),
}

} // verus!
