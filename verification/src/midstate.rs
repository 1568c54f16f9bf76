//! Number of midstates per piece of work.

use vstd::arithmetic::div_mod::{lemma_div_basics_2, lemma_fundamental_div_mod};
use vstd::arithmetic::power2::{lemma2_to64, lemma_pow2_strictly_increases, pow2};
use vstd::prelude::*;

verus! {

/// Midstate count as the FPGA control register encodes it.
#[derive(Clone, Copy, Debug, PartialEq, Eq, Structural)]
pub enum MidstateReg {
    One,
    Two,
    Four,
}

/// Number of midstates that the S9 FPGA sends to the chips.
///
/// Everyone that processes a `work_id` needs this number, in one of several
/// encodings: as a bitmask for parts of a solution id, as a base-2 logarithm,
/// and as the value of an FPGA register.
///
/// A `MidstateCount` is always one that the hardware supports: the type
/// invariant holds of every value of the type.
#[derive(Clone, Copy, Debug)]
pub struct MidstateCount {
    /// Base-2 logarithm of the number of midstates.
    log2: usize,
}

/// The numbers of midstates that the hardware supports.
pub open spec fn is_midstate_count(count: int) -> bool {
    count == 1 || count == 2 || count == 4
}

impl MidstateCount {
    #[verifier::type_invariant]
    spec fn supported(self) -> bool {
        self.log2 <= 2
    }

    /// The number of midstates.
    pub closed spec fn count(self) -> int {
        if self.log2 == 0 {
            1
        } else if self.log2 == 1 {
            2
        } else {
            4
        }
    }

    /// Makes a midstate count out of a number that the hardware supports.
    pub fn new(count: usize) -> (r: Self)
        requires
            is_midstate_count(count as int),
        ensures
            r.count() == count,
    {
        if count == 1 {
            MidstateCount { log2: 0 }
        } else if count == 2 {
            MidstateCount { log2: 1 }
        } else {
            MidstateCount { log2: 2 }
        }
    }

    /// Returns the midstate count encoded for the FPGA.
    pub fn to_reg(&self) -> (r: MidstateReg)
        ensures
            r == if self.count() == 1 {
                MidstateReg::One
            } else if self.count() == 2 {
                MidstateReg::Two
            } else {
                MidstateReg::Four
            },
            is_midstate_count(self.count()),
    {
        if self.log2 == 0 {
            MidstateReg::One
        } else if self.log2 == 1 {
            MidstateReg::Two
        } else {
            MidstateReg::Four
        }
    }

    /// Returns the midstate count.
    pub fn to_count(&self) -> (r: usize)
        ensures
            r == self.count(),
            is_midstate_count(r as int),
    {
        proof {
            use_type_invariant(self);
            lemma_powers();
        }
        1usize << self.log2
    }

    /// Returns the base-2 logarithm of the midstate count.
    pub fn to_bits(&self) -> (r: usize)
        ensures
            pow2(r as nat) == self.count(),
            r <= 2,
    {
        proof {
            use_type_invariant(self);
            lemma2_to64();
        }
        self.log2
    }

    /// Returns the midstate count mask (to get the `midstate_idx` bits from a
    /// `work_id`).
    pub fn to_mask(&self) -> (r: usize)
        ensures
            r == self.count() - 1,
            is_midstate_count(self.count()),
    {
        proof {
            use_type_invariant(self);
            lemma_powers();
        }
        (1usize << self.log2) - 1
    }
}

proof fn lemma_powers()
    ensures
        1usize << 0usize == 1,
        1usize << 1usize == 2,
        1usize << 2usize == 4,
{
    assert(1usize << 0usize == 1 && 1usize << 1usize == 2 && 1usize << 2usize == 4) by (bit_vector);
}

/// A work id consists of the index of a midstate, which the mask picks out, and of
/// the rest, which is left when the id is shifted by the logarithm.
pub proof fn law_mask_splits_work_id(
    midstates: MidstateCount,
    bits: usize,
    mask: usize,
    work_id: usize,
)
    requires
        pow2(bits as nat) == midstates.count(),
        mask == midstates.count() - 1,
    ensures
        (work_id & mask) as int == work_id as int % midstates.count(),
        (work_id >> bits) as int == work_id as int / midstates.count(),
        work_id == midstates.count() * (work_id >> bits) + (work_id & mask),
{
    let count = midstates.count();
    lemma2_to64();
    if bits > 2 {
        lemma_pow2_strictly_increases(2, bits as nat);
    }
    lemma_fundamental_div_mod(work_id as int, count);
    if bits == 0 {
        assert(count == 1);
        assert(work_id & 0usize == 0 && work_id >> 0usize == work_id) by (bit_vector);
        lemma_div_basics_2(work_id as int);
    } else if bits == 1 {
        assert(count == 2);
        assert(work_id & 1usize == work_id % 2 && work_id >> 1usize == work_id / 2) by (bit_vector);
    } else {
        assert(bits == 2 && count == 4);
        assert(work_id & 3usize == work_id % 4 && work_id >> 2usize == work_id / 4) by (bit_vector);
    }
}

} // verus!
