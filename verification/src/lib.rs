//! A minimal proposal/ballot voting core.
//!
//! A proposal carries a description, an expiration instant and two monotone
//! tallies. Votes are accepted strictly before the expiration. Two ballot
//! variants exist: an identity-gated one, where each voter may vote once and
//! replay is barred by a per-voter record, and a weight-gated one, where a
//! vote adds the voter's current token balance to a tally. The host that
//! stores records, signs transactions and supplies the clock stays outside
//! this crate: every operation here is a pure state transition on plain
//! values, with the current instant handed in by the caller.

pub mod ballot;
pub mod records;
pub mod store;
pub mod weighted;
