//! Verified validation and aggregation of domain-registration referral claim
//! batches.
//!
//! A batch holds a fixed number of claim slots, of which the first
//! `num_claims` are active. Each active claim is identified by a packed
//! (block number, transaction index, log index) key; keys must be strictly
//! increasing across active slots. Every active claim must be emitted by the
//! registrar contract and fall into one shared "days until expiry" cohort.
//! The batch evaluates to four summary values: the first key, the last active
//! key, the shared cohort, and the total price volume over active claims.
//!
//! Decisions over claim data are expressed as algebraic selection: 0/1
//! indicator values combined by multiplication and addition, so that every
//! input follows the same fixed sequence of operations. The only non-algebraic
//! outcome is failure, which rejects the batch as a whole.

pub mod batch;
pub mod indicator;
pub mod key;
pub mod pricing;
pub mod strlen;
