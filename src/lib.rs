//! A seed-derived permutation table of 256 bytes, the hashing substrate of
//! coherent noise functions.
pub mod generator;
pub mod hasher;
pub mod table;

pub use hasher::NoiseHasher;
pub use table::PermutationTable;
