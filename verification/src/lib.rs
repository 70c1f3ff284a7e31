//! A verified auto-splitter core for a managed-runtime-hosted platformer.
//!
//! The library reconstructs, from raw captured bytes of the target process,
//! the location of the game's auto-splitter info struct (by walking the
//! runtime's own class metadata), decodes its fields into a per-tick
//! snapshot, and drives the split-detection state machine that tells the
//! host's timer when to start, pause and split.
//!
//! All reads go through [`memory::MemSnapshot`], a partial capture of the
//! target process's memory. The host shim owns the actual process handle:
//! it fills the capture with the byte ranges the library reports missing
//! and re-runs the tick, so every decision taken here is a pure, verified
//! function of the captured bytes and the previous run state.

pub mod chain;
pub mod engine;
pub mod game_types;
pub mod memory;
pub mod metadata;
pub mod session;
pub mod snapshot;
