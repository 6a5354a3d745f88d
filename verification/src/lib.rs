//! A verified governance engine for a time-boxed DAO.
//!
//! A whitelisted set of identities submits time-boxed proposals and casts one
//! vote each; once a proposal's voting window has closed, the configured
//! authority may execute it, which triggers category-specific treasury side
//! effects exactly once. The engine itself is pure: every operation is a
//! state transition over [`state::DaoState`] that either fails with a
//! [`errors::GovernanceError`] and leaves the state untouched, or succeeds,
//! updates the state, and reports the domain event to emit together with any
//! token-ledger action the caller must perform. Reading the clock, persisting
//! records, and moving tokens are the caller's business.

pub mod counting;
pub mod effects;
pub mod errors;
pub mod events;
pub mod governance;
pub mod laws;
pub mod state;
