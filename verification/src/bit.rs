//! Reading single bits out of a byte.

use vstd::prelude::*;

verus! {

/// Access to the individual bits of an 8-bit value, bit 0 being the least significant.
pub trait Bit {
    /// Whether bit `idx` of the value is set.
    spec fn bit_is_set(&self, idx: int) -> bool;

    /// Reads bit `idx` (0 to 7) of the value.
    fn bit(&self, idx: usize) -> (set: bool)
        requires
            idx < 8,
        ensures
            set == self.bit_is_set(idx as int),
    ;
}

impl Bit for u8 {
    open spec fn bit_is_set(&self, idx: int) -> bool {
        (*self >> (idx as u8)) & 1 == 1
    }

    fn bit(&self, idx: usize) -> (set: bool) {
        let shift: u8 = idx as u8;
        let value: u8 = *self;
        let mask: u8 = 0x1 << shift;
        assert((value & (1u8 << shift)) >> shift == (value >> shift) & 1) by (bit_vector)
            requires
                shift < 8,
        ;
        (value & mask) >> shift == 1
    }
}

} // verus!
