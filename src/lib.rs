//! A registry of kitties: digital assets with a 16-byte genetic payload,
//! owner tracking, genealogy and breeding.

pub mod dna;
pub mod entropy;
pub mod laws;
pub mod registry;
