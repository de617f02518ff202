use vstd::prelude::*;
use crate::generator::{seeded_shuffle, shuffle_seeded, shuffle_with};
use crate::hasher::NoiseHasher;
use rand_xorshift::XorShiftRng;

verus! {

/// Number of entries in a permutation table.
pub const TABLE_SIZE: usize = 256;

/// The low byte of a coordinate, used as a raw index on one axis.
pub open spec fn axis_byte(c: isize) -> u8 {
    (c & 0xff) as u8
}

/// The index reached by folding the coordinates through the table:
/// the first raw index, then `table[acc] ^ raw` for each following one.
pub open spec fn fold_index(t: Seq<u8>, c: Seq<isize>) -> u8
    decreases c.len(),
{
    if c.len() <= 1 {
        axis_byte(c[0])
    } else {
        t[fold_index(t, c.drop_last()) as int] ^ axis_byte(c.last())
    }
}

/// The hash of a coordinate sequence: the table entry at the folded index.
pub open spec fn hash_value(t: Seq<u8>, c: Seq<isize>) -> u8 {
    t[fold_index(t, c) as int]
}

/// A sequence in which each byte value `0..=255` stands exactly once:
/// sorted, it is the identity table.
pub open spec fn is_permutation(s: Seq<u8>) -> bool {
    s.to_multiset() == identity_table().to_multiset()
}

/// The table before shuffling: entry `i` holds `i`.
pub open spec fn identity_table() -> Seq<u8> {
    Seq::new(256, |i: int| i as u8)
}

/// The 16-byte generator seed for a `u32` seed: a marker `1`, three zero
/// bytes, then the seed's little-endian bytes three times over.
pub open spec fn seed_expansion(seed: u32) -> Seq<u8> {
    Seq::new(
        16,
        |k: int|
            if k == 0 {
                1u8
            } else if k < 4 {
                0u8
            } else if k % 4 == 0 {
                seed as u8
            } else if k % 4 == 1 {
                (seed >> 8u32) as u8
            } else if k % 4 == 2 {
                (seed >> 16u32) as u8
            } else {
                (seed >> 24u32) as u8
            },
    )
}

/// What a table serializes to: its entries in index order, nothing more.
pub open spec fn encoded(t: Seq<u8>) -> Seq<u8> {
    t
}

/// What a byte sequence deserializes to: the same entries where there are
/// exactly 256 of them, whether or not they form a permutation.
pub open spec fn decoded(b: Seq<u8>) -> Option<Seq<u8>> {
    if b.len() == 256 {
        Some(b)
    } else {
        None
    }
}

/// The error of deserializing a sequence whose length is not 256.
#[derive(Copy, Clone, Debug, PartialEq, Eq, Structural)]
pub struct TableLengthError {
    /// The required number of entries, 256.
    pub expected: usize,
    /// The number of entries found.
    pub found: usize,
}

/// A seed table, required by all noise functions.
///
/// Built by one of the constructors, its entries are a permutation of
/// `0..=255`; a table read back from its serialized form is not checked.
#[derive(Copy, Clone)]
pub struct PermutationTable {
    values: [u8; TABLE_SIZE],
}

impl View for PermutationTable {
    type V = Seq<u8>;

    closed spec fn view(&self) -> Seq<u8> {
        self.values@
    }
}

impl PermutationTable {
    /// Every table holds exactly 256 entries.
    pub proof fn lemma_len(&self)
        ensures
            self@.len() == 256,
    {
    }

    /// The generator seed that `new` expands a `u32` seed into.
    pub fn seed_bytes(seed: u32) -> (r: [u8; 16])
        ensures
            r@ == seed_expansion(seed),
    {
        let mut bytes = [0u8; 16];
        bytes[0] = 1;
        let mut i: usize = 1;
        while i < 4
            invariant
                1 <= i <= 4,
                bytes@.len() == 16,
                forall|k: int| 0 <= k < 4 * i ==> bytes@[k] == seed_expansion(seed)[k],
                forall|k: int| 4 * i <= k < 16 ==> bytes@[k] == 0,
            decreases 4 - i,
        {
            bytes[i * 4] = seed as u8;
            bytes[i * 4 + 1] = (seed >> 8u32) as u8;
            bytes[i * 4 + 2] = (seed >> 16u32) as u8;
            bytes[i * 4 + 3] = (seed >> 24u32) as u8;
            i = i + 1;
        }
        assert(bytes@ =~= seed_expansion(seed));
        bytes
    }

    /// The identity table, entry `i` holding `i`.
    fn identity_values() -> (r: [u8; TABLE_SIZE])
        ensures
            r@ == identity_table(),
    {
        let mut values = [0u8; TABLE_SIZE];
        let mut i: usize = 0;
        while i < TABLE_SIZE
            invariant
                i <= 256,
                values@.len() == 256,
                forall|k: int| 0 <= k < i ==> values@[k] == k as u8,
            decreases 256 - i,
        {
            values[i] = i as u8;
            i = i + 1;
        }
        assert(values@ =~= identity_table());
        values
    }

    /// A table shuffled with `rng`; no other source of randomness is touched.
    pub fn from_rng(rng: &mut XorShiftRng) -> (r: PermutationTable)
        ensures
            is_permutation(r@),
    {
        let mut values = Self::identity_values();
        shuffle_with(&mut values, rng);
        PermutationTable { values }
    }

    /// Deterministically generates a new permutation table based on a `u32` seed value.
    ///
    /// The seed is expanded by `seed_bytes` into the state of a freshly made
    /// xorshift generator, which shuffles the identity table.
    pub fn new(seed: u32) -> (r: PermutationTable)
        ensures
            r@ == seeded_shuffle(seed_expansion(seed), identity_table()),
            is_permutation(r@),
    {
        let mut values = Self::identity_values();
        shuffle_seeded(Self::seed_bytes(seed), &mut values);
        PermutationTable { values }
    }

    /// The serialized form: the 256 entries in index order.
    pub fn serialize(&self) -> (r: Vec<u8>)
        ensures
            r@ == encoded(self@),
    {
        let mut r: Vec<u8> = Vec::new();
        let mut i: usize = 0;
        while i < TABLE_SIZE
            invariant
                i <= 256,
                self.values@.len() == 256,
                r@ == self.values@.subrange(0, i as int),
            decreases 256 - i,
        {
            r.push(self.values[i]);
            i = i + 1;
            assert(r@ =~= self.values@.subrange(0, i as int));
        }
        assert(r@ =~= self.values@);
        r
    }

    /// Reads a table back from its serialized form. Exactly 256 entries are
    /// required; their values are taken as they stand, without checking that
    /// they form a permutation.
    pub fn deserialize(values: &[u8]) -> (r: Result<PermutationTable, TableLengthError>)
        ensures
            r is Ok <==> values@.len() == 256,
            r matches Ok(t) ==> decoded(values@) == Some(t@),
            r matches Err(e) ==> e.expected == 256 && e.found == values@.len(),
    {
        if values.len() != TABLE_SIZE {
            return Err(TableLengthError { expected: TABLE_SIZE, found: values.len() });
        }
        let mut table = [0u8; TABLE_SIZE];
        let mut i: usize = 0;
        while i < TABLE_SIZE
            invariant
                i <= 256,
                values@.len() == 256,
                table@.len() == 256,
                forall|k: int| 0 <= k < i ==> table@[k] == values@[k],
            decreases 256 - i,
        {
            table[i] = values[i];
            i = i + 1;
        }
        assert(table@ =~= values@);
        Ok(PermutationTable { values: table })
    }

    /// A diagnostic rendering that keeps the entries hidden.
    pub fn debug_text(&self) -> (r: String)
        ensures
            r@ == "PermutationTable { .. }"@,
    {
        "PermutationTable { .. }".to_owned()
    }
}

impl NoiseHasher for PermutationTable {
    fn hash(&self, to_hash: &[isize]) -> (r: usize)
        ensures
            r == hash_value(self@, to_hash@),
    {
        let mut acc: u8 = (to_hash[0] & 0xff) as u8;
        let mut i: usize = 1;
        assert(to_hash@.subrange(0, 1).drop_last().len() == 0);
        while i < to_hash.len()
            invariant
                1 <= i <= to_hash@.len(),
                self.values@.len() == 256,
                acc == fold_index(self@, to_hash@.subrange(0, i as int)),
            decreases to_hash@.len() - i,
        {
            let ghost prev = to_hash@.subrange(0, i as int);
            let ghost next = to_hash@.subrange(0, i as int + 1);
            assert(next.drop_last() =~= prev);
            acc = self.values[acc as usize] ^ ((to_hash[i] & 0xff) as u8);
            i = i + 1;
        }
        assert(to_hash@.subrange(0, i as int) =~= to_hash@);
        self.values[acc as usize] as usize
    }
}

/// Deserializing what a table serializes to gives back the same 256 entries.
pub proof fn lemma_round_trip(t: PermutationTable)
    ensures
        decoded(encoded(t@)) == Some(t@),
{
    t.lemma_len();
}

/// Hashing a single coordinate looks up the table at its low byte.
pub proof fn lemma_single_axis(t: Seq<u8>, c: isize)
    ensures
        hash_value(t, seq![c]) == t[axis_byte(c) as int],
{
}

} // verus!
