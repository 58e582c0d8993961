//! Lifecycle of a mortal agent: a bounded heartbeat counter that burns down to
//! an irreversible death, a vault sealed once with the agent's final state,
//! and a time lock that gates resurrection.

use vstd::prelude::*;

pub mod error;
pub mod key;
pub mod lemmas;
pub mod phase;
pub mod program;
pub mod state;
pub mod vault;

verus! {

/// Heartbeats granted at birth: one per second of a day.
pub const TOTAL_HEARTBEATS: u64 = 86_400;

/// Longest final statement a vault accepts, in UTF-8 bytes.
pub const MAX_LAST_WORDS_LEN: usize = 280;

/// Intended wait between sealing and resurrection: 30 days, in seconds.
/// Each store carries its own delay, so a deployment may set another.
pub const RESURRECTION_DELAY_SECONDS: u64 = 2_592_000;

} // verus!
