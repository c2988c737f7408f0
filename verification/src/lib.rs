//! A minimal two-asset exchange pool: a ledger of two token balances that can
//! be swapped one for the other at a fixed 1:1 rate, bounded by the available
//! liquidity of the asset being paid out.
//!
//! The library is the pure state-transition core. A host runtime is expected
//! to decode requests, load the durable [`state::State`] record, call the
//! entry operations here, and persist the updated record atomically.

pub mod contract;
pub mod error;
pub mod msg;
pub mod state;
