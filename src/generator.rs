use vstd::prelude::*;
use rand::seq::SliceRandom;
use rand::SeedableRng;
use rand_xorshift::XorShiftRng;

verus! {

/// The xorshift generator of `rand_xorshift`, carried through as an opaque value.
#[verifier::external_type_specification]
#[verifier::external_body]
pub struct ExXorShiftRng(XorShiftRng);

/// What shuffling `values` gives with a xorshift generator freshly seeded
/// with the 16 bytes `seed`.
pub uninterp spec fn seeded_shuffle(seed: Seq<u8>, values: Seq<u8>) -> Seq<u8>;

/// Relies on `<XorShiftRng as SeedableRng>::from_seed`, which is total and
/// deterministic, and on `SliceRandom::shuffle`, which only exchanges entries:
/// the result depends on the seed and the entries alone, and keeps the entries.
#[verifier::external_body]
pub(crate) fn shuffle_seeded(seed: [u8; 16], values: &mut [u8; 256])
    ensures
        final(values)@ == seeded_shuffle(seed@, old(values)@),
        final(values)@.to_multiset() == old(values)@.to_multiset(),
{
    let mut rng = XorShiftRng::from_seed(seed);
    values.shuffle(&mut rng);
}

/// Relies on `SliceRandom::shuffle`, which only exchanges entries: the
/// entries are kept, in an order that depends on the generator's state.
#[verifier::external_body]
pub(crate) fn shuffle_with(values: &mut [u8; 256], rng: &mut XorShiftRng)
    ensures
        final(values)@.to_multiset() == old(values)@.to_multiset(),
{
    values.shuffle(rng);
}

} // verus!
