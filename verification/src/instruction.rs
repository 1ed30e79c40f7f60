//! View over a raw opcode byte, exposing the bitfields the decoder reads.
//!
//! An opcode byte splits as `aaa bbb cc`: `cc` selects one of the opcode
//! groups, `bbb` the addressing mode within the group and `aaa` the
//! operation.  For branches the top bits read instead as `xx y`, the index
//! of the tested flag and the polarity it must have.

use vstd::prelude::*;

verus! {

/// The `aaa` field: bits 7..5, the operation within its group.
pub open spec fn op_aaa(b: u8) -> u8 {
    (b & 0b11100000) >> 5
}

/// The `bbb` field: bits 4..2, the addressing-mode selector.
pub open spec fn op_bbb(b: u8) -> u8 {
    (b & 0b00011100) >> 2
}

/// The `cc` field: bits 1..0, the opcode group.
pub open spec fn op_cc(b: u8) -> u8 {
    b & 0b00000011
}

/// The `xx` field: bits 7..6, the flag a branch tests.
pub open spec fn op_xx(b: u8) -> u8 {
    (b >> 6) & 0b00000011
}

/// The `y` field: bit 5, the polarity a branch requires of its flag.
pub open spec fn op_y(b: u8) -> bool {
    (b >> 5) & 0b00000001 == 1
}

/// A raw opcode byte together with its derived bitfields.
#[derive(Copy, Clone, PartialEq, Eq, Structural, Debug)]
pub struct Instruction(pub u8);

impl Instruction {
    /// The raw opcode byte.
    pub fn get(&self) -> (r: u8)
        ensures
            r == self.0,
    {
        self.0
    }

    /// Replace the raw opcode byte.
    pub fn set(&mut self, f: u8)
        ensures
            final(self).0 == f,
    {
        self.0 = f;
    }

    /// The operation field `aaa`.
    pub fn aaa(&self) -> (r: u8)
        ensures
            r == op_aaa(self.0),
            r < 8,
    {
        proof {
            let b = self.0;
            assert((b & 0b11100000) >> 5 < 8) by (bit_vector);
        }
        (self.0 & 0b11100000) >> 5
    }

    /// The addressing-mode field `bbb`.
    pub fn bbb(&self) -> (r: u8)
        ensures
            r == op_bbb(self.0),
            r < 8,
    {
        proof {
            let b = self.0;
            assert((b & 0b00011100) >> 2 < 8) by (bit_vector);
        }
        (self.0 & 0b00011100) >> 2
    }

    /// The group field `cc`.
    pub fn cc(&self) -> (r: u8)
        ensures
            r == op_cc(self.0),
            r < 4,
    {
        proof {
            let b = self.0;
            assert(b & 0b00000011 < 4) by (bit_vector);
        }
        self.0 & 0b00000011
    }

    /// The branch flag-index field `xx`.
    pub fn xx(&self) -> (r: u8)
        ensures
            r == op_xx(self.0),
            r < 4,
    {
        proof {
            let b = self.0;
            assert((b >> 6) & 0b00000011 < 4) by (bit_vector);
        }
        (self.0 >> 6) & 0b00000011
    }

    /// The branch polarity field `y`.
    pub fn y(&self) -> (r: bool)
        ensures
            r == op_y(self.0),
    {
        (self.0 >> 5) & 0b00000001 == 1
    }
}

} // verus!
