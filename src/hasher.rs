use vstd::prelude::*;

verus! {

/// Maps a non-empty sequence of integer lattice coordinates to a table index.
pub trait NoiseHasher: Send + Sync {
    /// The index for `to_hash`; the sequence must hold at least one coordinate.
    fn hash(&self, to_hash: &[isize]) -> (r: usize)
        requires
            to_hash@.len() >= 1,
        ensures
            r < 256,
    ;
}

} // verus!
