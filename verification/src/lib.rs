//! Session-level orchestration around an external contact-solving engine.
//!
//! The library owns no physics: it verifies the coordination core around the
//! solver boundary — the per-step protocol, the single-slot asynchronous
//! spatial-index rebuild pipeline, the address-stable vertex buffers with
//! their checked write-through override, and the construction-time derivation
//! and deduplication of per-edge parameter records. The engine itself, the
//! geometry provider and all file traffic stay with the host driver, which
//! hands this library plain values and performs the actions it decides on.

pub mod config;
pub mod edge_params;
pub mod errors;
pub mod session;
pub mod slot;
