//! The runtime feature set a caller makes available to the assembler.

use vstd::prelude::*;
use crate::inst::Flag;

verus! {

/// The bit standing for a CPU feature in an [`AvailableFeatures`] set.
pub open spec fn flag_bit(f: Flag) -> u32 {
    match f {
        Flag::_64b => 1,
        Flag::compat => 2,
    }
}

/// A set of CPU features, one bit per feature.
pub struct AvailableFeatures(pub u32);

impl AvailableFeatures {
    /// Whether the feature `f` is in the set.
    pub open spec fn spec_has(&self, f: Flag) -> bool {
        self.0 & flag_bit(f) != 0
    }

    /// The set holding exactly the listed features: a flag's bit is set iff
    /// the flag was listed, and every bit outside the flag positions is
    /// zero.
    pub fn new(flags: &[Flag]) -> (r: AvailableFeatures)
        ensures
            forall|f: Flag| #[trigger] r.spec_has(f) <==> flags@.contains(f),
            r.0 & 0xffff_fffc == 0,
    {
        let mut avail: u32 = 0;
        let mut i: usize = 0;
        proof {
            assert forall|f: Flag| ((0u32 & flag_bit(f)) != 0) <==> flags@.take(
                0,
            ).contains(f) by {
                let b = flag_bit(f);
                assert(0u32 & b == 0) by (bit_vector);
            }
            assert(0u32 & 0xffff_fffc == 0) by (bit_vector);
        }
        while i < flags.len()
            invariant
                i <= flags@.len(),
                avail & 0xffff_fffc == 0,
                forall|f: Flag| ((#[trigger] (avail & flag_bit(f))) != 0) <==> flags@.take(
                    i as int,
                ).contains(f),
            decreases flags@.len() - i,
        {
            let bit: u32 = match flags[i] {
                Flag::_64b => 1,
                Flag::compat => 2,
            };
            let ghost prev = avail;
            avail = avail | bit;
            proof {
                assert((prev | bit) & 0xffff_fffc == 0) by (bit_vector)
                    requires
                        prev & 0xffff_fffc == 0 && (bit == 1 || bit == 2),
                ;
                let fi = flags@[i as int];
                assert(bit == flag_bit(fi));
                assert(flags@.take(i + 1) =~= flags@.take(i as int).push(fi));
                assert forall|f: Flag| ((avail & flag_bit(f)) != 0) <==> flags@.take(
                    i + 1,
                ).contains(f) by {
                    let c = flag_bit(f);
                    assert(((prev | bit) & c != 0) == ((prev & c != 0) || bit == c))
                        by (bit_vector)
                        requires
                            (bit == 1 || bit == 2) && (c == 1 || c == 2),
                    ;
                    assert((bit == c) == (f == fi));
                    if flags@.take(i as int).contains(f) {
                        let j = choose|j: int|
                            0 <= j < i && #[trigger] flags@.take(i as int)[j] == f;
                        assert(flags@.take(i + 1)[j] == f);
                    }
                    if f == fi {
                        assert(flags@.take(i + 1)[i as int] == f);
                    }
                    if flags@.take(i + 1).contains(f) {
                        let j = choose|j: int|
                            0 <= j < i + 1 && #[trigger] flags@.take(i + 1)[j] == f;
                        if j < i {
                            assert(flags@.take(i as int)[j] == f);
                        }
                    }
                }
            }
            i = i + 1;
        }
        proof {
            assert(flags@.take(flags@.len() as int) =~= flags@);
        }
        AvailableFeatures(avail)
    }

    /// Whether the feature `index` is in the set.
    pub fn index(&self, index: Flag) -> (r: bool)
        ensures
            r == self.spec_has(index),
    {
        let bit: u32 = match index {
            Flag::_64b => 1,
            Flag::compat => 2,
        };
        self.0 & bit != 0
    }
}

} // verus!
