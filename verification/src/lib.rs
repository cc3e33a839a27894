//! Staged assembly of a modular spaceship blueprint.
//!
//! A [`blueprint::Blueprint`] is driven through an ordered sequence of
//! stages: a frame is set, core modules (reactors, engine, life support,
//! bridge) are installed, the core is locked, optional modules (shield,
//! sensors) are installed, and the assembly is finalized. Every installation
//! is checked against the slot budget, the per-kind singularity rules and the
//! shield/reactor compatibility rules; a rejected operation leaves the
//! blueprint unchanged and reports a typed [`error::BuildError`]. A finalized
//! blueprint is read-only and yields a derived performance [`report::Report`].

pub mod blueprint;
pub mod compat;
pub mod error;
pub mod module;
pub mod report;
pub mod slot;
pub mod stage;
