//! The byte-addressable store the core reads and writes.
//!
//! The emulated bus is total: every 16-bit address designates one byte.
//! 16-bit values are little-endian.  A 16-bit load whose low byte sits at
//! `0xFF` fetches its high byte from `0x00`: the zero-page wrap that the
//! indirect addressing modes rely on.

use vstd::prelude::*;

verus! {

/// Number of addressable bytes.
pub const MEM_SIZE: usize = 0x10000;

/// The byte a 16-bit address designates in a memory image.
pub open spec fn rd(m: Seq<u8>, a: u16) -> u8 {
    m[a as int]
}

/// The address the high byte of a 16-bit load comes from: the successor of
/// `a`, wrapping within the zero page at `0xFF` and within the address space
/// at the top of memory.
pub open spec fn load_next(a: u16) -> u16 {
    if a == 0xFF {
        0
    } else if a == 0xFFFF {
        0
    } else {
        (a + 1) as u16
    }
}

/// The address the high byte of a 16-bit store goes to: the plain 16-bit
/// successor of `a`.
pub open spec fn store_next(a: u16) -> u16 {
    if a == 0xFFFF {
        0
    } else {
        (a + 1) as u16
    }
}

/// The little-endian 16-bit value at `a` in a memory image, with the high
/// byte taken from `load_next(a)`.
pub open spec fn le16_at(m: Seq<u8>, a: u16) -> u16 {
    (rd(m, a) + 256 * rd(m, load_next(a))) as u16
}

/// A flat 64 KiB memory image.
pub struct Memory {
    bytes: Vec<u8>,
}

impl View for Memory {
    type V = Seq<u8>;

    closed spec fn view(&self) -> Seq<u8> {
        self.bytes@
    }
}

impl Memory {
    #[verifier::type_invariant]
    spec fn wf(self) -> bool {
        self.bytes@.len() == MEM_SIZE
    }

    /// A memory image holding zero at every address.
    pub fn new() -> (r: Memory)
        ensures
            r@.len() == MEM_SIZE,
            forall|i: int| 0 <= i < MEM_SIZE ==> r@[i] == 0,
    {
        let mut bytes: Vec<u8> = Vec::new();
        while bytes.len() < MEM_SIZE
            invariant
                bytes@.len() <= MEM_SIZE,
                forall|i: int| 0 <= i < bytes@.len() ==> bytes@[i] == 0,
            decreases MEM_SIZE - bytes@.len(),
        {
            bytes.push(0);
        }
        Memory { bytes }
    }

    /// Read one byte.
    pub fn load8(&self, addr: u16) -> (r: u8)
        ensures
            r == rd(self@, addr),
            self@.len() == MEM_SIZE,
    {
        proof {
            use_type_invariant(self);
        }
        self.bytes[addr as usize]
    }

    /// Write one byte.
    pub fn store8(&mut self, addr: u16, val: u8)
        ensures
            final(self)@ == old(self)@.update(addr as int, val),
            old(self)@.len() == MEM_SIZE,
    {
        proof {
            use_type_invariant(&*self);
        }
        self.bytes[addr as usize] = val;
    }

    /// Read a little-endian 16-bit value, the high byte from `load_next`.
    pub fn load16(&self, addr: u16) -> (r: u16)
        ensures
            r == le16_at(self@, addr),
            self@.len() == MEM_SIZE,
    {
        let addr2: u16 = if addr == 0xFF {
            0
        } else {
            addr.wrapping_add(1)
        };
        let b0 = self.load8(addr);
        let b1 = self.load8(addr2);
        b0 as u16 + 256 * (b1 as u16)
    }

    /// Write a little-endian 16-bit value at `addr` and `store_next(addr)`.
    pub fn store16(&mut self, addr: u16, val: u16)
        ensures
            final(self)@ == old(self)@.update(addr as int, (val % 256) as u8).update(
                store_next(addr) as int,
                (val / 256) as u8,
            ),
            old(self)@.len() == MEM_SIZE,
    {
        self.store8(addr, (val % 256) as u8);
        self.store8(addr.wrapping_add(1), (val / 256) as u8);
    }
}

} // verus!
