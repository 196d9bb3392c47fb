use vstd::prelude::*;

verus! {

/// Whether bit `pos` of `value` is 1.
pub open spec fn bit_is_set(value: u8, pos: u8) -> bool {
    value & (1u8 << pos) != 0
}

/// `value` with bit `pos` forced to `bit` and every other bit kept.
pub open spec fn with_bit(value: u8, pos: u8, bit: bool) -> u8 {
    if bit {
        value | (1u8 << pos)
    } else {
        value & !(1u8 << pos)
    }
}

/// Forcing one bit decides that bit and leaves the seven others as they were.
pub proof fn lemma_with_bit_reads_back(value: u8, pos: u8, bit: bool, p: u8)
    requires
        pos < 8,
        p < 8,
    ensures
        bit_is_set(with_bit(value, pos, bit), p) == if p == pos {
            bit
        } else {
            bit_is_set(value, p)
        },
{
    assert(((value | (1u8 << pos)) & (1u8 << p) != 0) == (p == pos || (value & (1u8 << p) != 0)))
        by (bit_vector)
        requires
            pos < 8,
            p < 8,
    ;
    assert(((value & !(1u8 << pos)) & (1u8 << p) != 0) == (p != pos && (value & (1u8 << p) != 0)))
        by (bit_vector)
        requires
            pos < 8,
            p < 8,
    ;
}

pub trait Bit {
    /// Number of bit positions the implementing type has.
    spec fn bit_width() -> nat;

    /// The bit at `bit_position`, as a mathematical fact about the value.
    spec fn has_bit(&self, bit_position: u8) -> bool;

    /// Get bit at position
    fn get_bit(&self, bit_position: u8) -> (bit: bool)
        requires
            bit_position < Self::bit_width(),
        ensures
            bit == self.has_bit(bit_position),
    ;

    /// Set bit at position to 1 or 0 (true or false)
    fn set_bit(&mut self, bit_position: u8, bit_value: bool)
        requires
            bit_position < Self::bit_width(),
        ensures
            forall|p: u8|
                p < Self::bit_width() ==> #[trigger] final(self).has_bit(p) == if p
                    == bit_position {
                    bit_value
                } else {
                    old(self).has_bit(p)
                },
    ;
}

impl Bit for u8 {
    open spec fn bit_width() -> nat {
        8
    }

    open spec fn has_bit(&self, bit_position: u8) -> bool {
        bit_is_set(*self, bit_position)
    }

    fn get_bit(&self, bit_position: u8) -> (bit: bool) {
        (*self & (1u8 << bit_position)) != 0
    }

    fn set_bit(&mut self, bit_position: u8, bit_value: bool)
        ensures
            *final(self) == with_bit(*old(self), bit_position, bit_value),
    {
        let bit: u8 = 1u8 << bit_position;
        if bit_value {
            *self |= bit;
        } else {
            *self &= !bit;
        }
        proof {
            assert forall|p: u8| p < 8 implies #[trigger] self.has_bit(p) == if p == bit_position {
                bit_value
            } else {
                old(self).has_bit(p)
            } by {
                lemma_with_bit_reads_back(*old(self), bit_position, bit_value, p);
            }
        }
    }
}

} // verus!
