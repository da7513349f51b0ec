//! A commit-then-reveal winner-drawing library.
//!
//! A bounded, duplicate-free pool of identities is narrowed to `k` unique
//! winners by a deterministic sampling algorithm driven by a selection seed.
//! The seed comes either from a hash of the platform clock (a weak, legacy
//! path) or from an external verifiable-randomness oracle, whose lifecycle is
//! tracked by a per-authority commitment state machine.

pub mod commitment;
pub mod counter;
pub mod errors;
pub mod identity;
pub mod oracle;
pub mod pool;
pub mod seed;
pub mod selector;
