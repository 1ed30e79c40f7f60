//! The packed 8-bit processor-status register.
//!
//! The eight flags are packed as `N V - B D I Z C` from bit 7 down to bit 0.
//! Bit 5 is conventionally set; bit 4 (B) only matters in copies pushed on
//! the stack.

use vstd::prelude::*;

verus! {

/// Bit position of the carry flag.
pub const CARRY: u8 = 0;
/// Bit position of the zero flag.
pub const ZERO: u8 = 1;
/// Bit position of the interrupt-disable flag.
pub const INTERRUPT: u8 = 2;
/// Bit position of the decimal flag (storable, ignored by arithmetic).
pub const DECIMAL: u8 = 3;
/// Bit position of the break flag (meaningful only in pushed copies).
pub const BREAK: u8 = 4;
/// Bit position of the overflow flag.
pub const OVERFLOW: u8 = 6;
/// Bit position of the negative flag.
pub const NEGATIVE: u8 = 7;

/// The status byte at power-on: interrupt-disable and the reserved bit set.
pub const POWER_ON_STATUS: u8 = 0x24;

/// Whether bit `sh` of the packed status byte `p` is set.
pub open spec fn get_flag(p: u8, sh: u8) -> bool {
    (p >> sh) & 1 == 1
}

/// The packed status byte `p` with bit `sh` forced to `v` and every other
/// bit unchanged.
pub open spec fn set_flag(p: u8, sh: u8, v: bool) -> u8 {
    if v {
        p | (1u8 << sh)
    } else {
        p & !(1u8 << sh)
    }
}

/// The negative flag of a packed status byte.
pub open spec fn flag_n(p: u8) -> bool {
    get_flag(p, NEGATIVE)
}

/// The overflow flag of a packed status byte.
pub open spec fn flag_v(p: u8) -> bool {
    get_flag(p, OVERFLOW)
}

/// The interrupt-disable flag of a packed status byte.
pub open spec fn flag_i(p: u8) -> bool {
    get_flag(p, INTERRUPT)
}

/// The zero flag of a packed status byte.
pub open spec fn flag_z(p: u8) -> bool {
    get_flag(p, ZERO)
}

/// The carry flag of a packed status byte.
pub open spec fn flag_c(p: u8) -> bool {
    get_flag(p, CARRY)
}

/// Setting bit `sh` leaves bit `sh` equal to the stored value and every
/// other bit as it was.
pub proof fn lemma_flag_set_get(p: u8, sh: u8, j: u8, v: bool)
    requires
        sh < 8,
        j < 8,
    ensures
        get_flag(set_flag(p, sh, v), sh) == v,
        j != sh ==> get_flag(set_flag(p, sh, v), j) == get_flag(p, j),
{
    assert(get_flag(set_flag(p, sh, v), sh) == v && (j != sh ==> get_flag(
        set_flag(p, sh, v),
        j,
    ) == get_flag(p, j))) by (bit_vector)
        requires
            sh < 8,
            j < 8,
    ;
}

/// The packed processor-status register.
#[derive(Copy, Clone, PartialEq, Eq, Structural, Debug)]
pub struct Flags(pub u8);

impl Flags {
    /// The power-on status register.
    pub fn new() -> (r: Flags)
        ensures
            r.0 == POWER_ON_STATUS,
    {
        Flags(POWER_ON_STATUS)
    }

    /// Overwrite the whole packed byte, as a pulled stack copy does.
    pub fn set(&mut self, s: u8)
        ensures
            final(self).0 == s,
    {
        self.0 = s;
    }

    /// The whole packed byte, as a pushed stack copy reads it.
    pub fn get(&self) -> (r: u8)
        ensures
            r == self.0,
    {
        self.0
    }

    /// Force bit `shift` to `val`, leaving the other bits alone.
    fn sets(&mut self, val: bool, shift: u8)
        requires
            shift < 8,
        ensures
            final(self).0 == set_flag(old(self).0, shift, val),
    {
        let mask: u8 = 1u8 << shift;
        if val {
            self.0 = self.0 | mask;
        } else {
            self.0 = self.0 & !mask;
        }
    }

    /// Write the negative flag.
    pub fn set_negative(&mut self, val: bool)
        ensures
            final(self).0 == set_flag(old(self).0, NEGATIVE, val),
    {
        self.sets(val, NEGATIVE);
    }

    /// Write the overflow flag.
    pub fn set_overflow(&mut self, val: bool)
        ensures
            final(self).0 == set_flag(old(self).0, OVERFLOW, val),
    {
        self.sets(val, OVERFLOW);
    }

    /// Write the decimal flag.
    pub fn set_decimal(&mut self, val: bool)
        ensures
            final(self).0 == set_flag(old(self).0, DECIMAL, val),
    {
        self.sets(val, DECIMAL);
    }

    /// Write the interrupt-disable flag.
    pub fn set_interrupt(&mut self, val: bool)
        ensures
            final(self).0 == set_flag(old(self).0, INTERRUPT, val),
    {
        self.sets(val, INTERRUPT);
    }

    /// Write the zero flag.
    pub fn set_zero(&mut self, val: bool)
        ensures
            final(self).0 == set_flag(old(self).0, ZERO, val),
    {
        self.sets(val, ZERO);
    }

    /// Write the carry flag.
    pub fn set_carry(&mut self, val: bool)
        ensures
            final(self).0 == set_flag(old(self).0, CARRY, val),
    {
        self.sets(val, CARRY);
    }

    /// Read bit `shift`.
    fn gets(self, shift: u8) -> (r: bool)
        requires
            shift < 8,
        ensures
            r == get_flag(self.0, shift),
    {
        let val = self.0 >> shift;
        val & 1 == 1
    }

    /// Read the negative flag.
    pub fn get_negative(&self) -> (r: bool)
        ensures
            r == flag_n(self.0),
    {
        self.gets(NEGATIVE)
    }

    /// Read the overflow flag.
    pub fn get_overflow(&self) -> (r: bool)
        ensures
            r == flag_v(self.0),
    {
        self.gets(OVERFLOW)
    }

    /// Read the interrupt-disable flag.
    pub fn get_interrupt(&self) -> (r: bool)
        ensures
            r == flag_i(self.0),
    {
        self.gets(INTERRUPT)
    }

    /// Read the zero flag.
    pub fn get_zero(&self) -> (r: bool)
        ensures
            r == flag_z(self.0),
    {
        self.gets(ZERO)
    }

    /// Read the carry flag.
    pub fn get_carry(&self) -> (r: bool)
        ensures
            r == flag_c(self.0),
    {
        self.gets(CARRY)
    }
}

} // verus!
