//! Star descriptors and planet descriptors.

use vstd::prelude::*;

verus! {

/// Remnant / category classification of a star.
#[derive(Clone, Copy, Debug, PartialEq, Eq, Structural)]
pub enum StarType {
    MainSeqStar,
    GiantStar,
    WhiteDwarf,
    NeutronStar,
    BlackHole,
}

/// Spectral classification of a star. `X` stands for any unrecognized class,
/// which falls back to a single-planet, all-zero-probability-row result.
#[derive(Clone, Copy, Debug, PartialEq, Eq, Structural)]
pub enum SpectrType {
    M,
    K,
    G,
    F,
    A,
    B,
    O,
    X,
}

/// Star descriptor, read-only during generation: classification, spectral
/// class, whether it is a player's starting (birth) star, and the seed from
/// which its planet list is expanded.
#[derive(Clone, Copy, Debug, PartialEq, Eq, Structural)]
pub struct Star {
    pub star_type: StarType,
    pub spectr: SpectrType,
    pub is_birth: bool,
    pub planets_seed: u64,
}

/// One orbiting body. `index` is the 0-based creation order; `orbit_index`
/// is the body's orbit slot (a distance rank, not necessarily contiguous);
/// the two seeds are handed to the external per-planet detail generator.
/// `orbit_around`, when present, is the 0-based creation index of the host
/// planet this body orbits — always strictly smaller than `index`, so the
/// orbit graph can hold no cycle.
#[derive(Clone, Copy, Debug, PartialEq, Eq)]
pub struct Planet {
    pub index: u64,
    pub orbit_index: u64,
    pub gas_giant: bool,
    pub info_seed: u64,
    pub gen_seed: u64,
    pub orbit_around: Option<u64>,
}

} // verus!
