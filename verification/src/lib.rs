//! A staked, two-player, 3-vs-3 champion combat arena.
//!
//! The crate is split along the data flow: the core data model, a static
//! champion catalog, an elemental damage multiplier, the damage and ability
//! arithmetic, a turn resolver with its mathematical model, a fixed-width
//! codec for persisted combatant state, the commit-reveal hash, and a match
//! state machine that drives staking, team submission, commit-reveal combat
//! rounds, timeouts and payouts.

pub mod types;
pub mod champions;
pub mod elements;
pub mod damage;
pub mod combat_model;
pub mod combat;
pub mod codec;
pub mod pack;
pub mod rpo;
pub mod arena;
