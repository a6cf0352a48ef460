//! Watches one ledger address for newly confirmed incoming transfers and
//! decides, cycle by cycle, which of them to announce and when the
//! persisted watermark may advance.
//!
//! The crate holds the decisions only: what to request next from the
//! indexer, which transactions count as incoming, what the notification
//! says, and how the watermark moves. Sleeping, HTTP and the state file
//! belong to the program around it.

pub mod text;
pub mod node;
pub mod cursor;
pub mod notifier;
pub mod state;
pub mod watcher;
