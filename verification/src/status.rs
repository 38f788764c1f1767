//! The processor status register: eight independent condition flags packed
//! into one byte. Operation logic tests, sets and clears single flags, while
//! interrupt entry and the stack instructions read and write the whole byte.

use vstd::prelude::*;

verus! {

/// Bit mask of the Carry flag.
pub const FLAG_C: u8 = 0x01;
/// Bit mask of the Zero flag.
pub const FLAG_Z: u8 = 0x02;
/// Bit mask of the Interrupt-disable flag.
pub const FLAG_I: u8 = 0x04;
/// Bit mask of the Decimal-mode flag (kept but never consulted: decimal
/// arithmetic is not implemented).
pub const FLAG_D: u8 = 0x08;
/// Bit mask of the Break flag.
pub const FLAG_B: u8 = 0x10;
/// Bit mask of the always-set Unused flag.
pub const FLAG_U: u8 = 0x20;
/// Bit mask of the Overflow flag.
pub const FLAG_V: u8 = 0x40;
/// Bit mask of the Negative flag.
pub const FLAG_N: u8 = 0x80;

/// One of the eight status flags, under its customary one-letter name.
#[derive(Clone, Copy, PartialEq, Eq, Structural, Debug)]
pub enum Flag {
    C,
    Z,
    I,
    D,
    B,
    U,
    V,
    N,
}

impl Flag {
    /// The single bit this flag occupies in the status byte.
    pub open spec fn spec_mask(self) -> u8 {
        match self {
            Flag::C => FLAG_C,
            Flag::Z => FLAG_Z,
            Flag::I => FLAG_I,
            Flag::D => FLAG_D,
            Flag::B => FLAG_B,
            Flag::U => FLAG_U,
            Flag::V => FLAG_V,
            Flag::N => FLAG_N,
        }
    }

    /// Bit mask of this flag.
    #[verifier::when_used_as_spec(spec_mask)]
    pub fn mask(self) -> (m: u8)
        ensures
            m == self.spec_mask(),
    {
        match self {
            Flag::C => FLAG_C,
            Flag::Z => FLAG_Z,
            Flag::I => FLAG_I,
            Flag::D => FLAG_D,
            Flag::B => FLAG_B,
            Flag::U => FLAG_U,
            Flag::V => FLAG_V,
            Flag::N => FLAG_N,
        }
    }
}

/// The status byte with the bits of `mask` forced set.
pub open spec fn st_set(st: u8, mask: u8) -> u8 {
    st | mask
}

/// The status byte with the bits of `mask` forced clear.
pub open spec fn st_clear(st: u8, mask: u8) -> u8 {
    st & !mask
}

/// The status byte with the bits of `mask` set when `on` holds and cleared
/// otherwise.
pub open spec fn st_with(st: u8, mask: u8, on: bool) -> u8 {
    if on {
        st_set(st, mask)
    } else {
        st_clear(st, mask)
    }
}

/// Whether any bit of `mask` is set in the status byte.
pub open spec fn st_is_set(st: u8, mask: u8) -> bool {
    st & mask != 0
}

/// The status byte after an operation that produced `val`: Zero tracks
/// `val == 0` and Negative tracks bit 7 of `val`, in the order the executor
/// applies them (Zero first, then Negative).
pub open spec fn st_zn(st: u8, val: u8) -> u8 {
    st_with(st_with(st, FLAG_Z, val == 0x00), FLAG_N, val & 0x80 == 0x80)
}

/// The status byte after an operation that produced `val`, Negative applied
/// first and Zero second (the order used by the compare, load and register
/// step operations).
pub open spec fn st_nz(st: u8, val: u8) -> u8 {
    st_with(st_with(st, FLAG_N, val & 0x80 == 0x80), FLAG_Z, val == 0x00)
}

/// The processor status register.
#[derive(Clone, Copy, PartialEq, Eq, Structural, Debug)]
pub struct CpuStatus {
    /// The packed flag byte. Bit assignments are the `FLAG_*` masks.
    pub bits: u8,
}

impl CpuStatus {
    /// A status byte with every flag clear.
    pub fn default() -> (s: CpuStatus)
        ensures
            s.bits == 0x00,
    {
        CpuStatus { bits: 0x00 }
    }

    /// Restores the power-up value: every flag set (the Unused flag among
    /// them, as required).
    pub fn reset(&mut self)
        ensures
            final(self).bits == 0xFF,
    {
        self.bits = 0xFF;
    }

    /// Sets `flag`, leaving the other bits alone.
    pub fn set_flag(&mut self, flag: Flag)
        ensures
            final(self).bits == st_set(old(self).bits, flag.spec_mask()),
    {
        self.bits = self.bits | flag.mask();
    }

    /// Clears `flag`, leaving the other bits alone.
    pub fn clear_flag(&mut self, flag: Flag)
        ensures
            final(self).bits == st_clear(old(self).bits, flag.spec_mask()),
    {
        self.bits = self.bits & !flag.mask();
    }

    /// Whether `flag` is set.
    pub fn is_flag_set(&self, flag: Flag) -> (r: bool)
        ensures
            r == st_is_set(self.bits, flag.spec_mask()),
    {
        self.bits & flag.mask() != 0
    }
}

} // verus!
