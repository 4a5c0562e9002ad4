//! Deterministic generation of the orbiting bodies of a star.
//!
//! Given a star's seed and classification, the builder expands them into an
//! ordered list of planet descriptors with an orbit topology: which body sits
//! in which orbit slot, which bodies are gas giants, and which bodies are
//! moons of an earlier body. A lazy cache wraps the builder so that each
//! planetary system is generated at most once.

pub mod builder;
pub mod data;
pub mod laws;
pub mod random;
pub mod system;
