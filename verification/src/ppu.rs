//! The video peripheral, as seen from the bus.
//!
//! A peripheral exposes a narrow register-access capability: read or write
//! one register byte at a local offset.  The bus owns the peripheral and
//! calls it synchronously on matching I/O accesses; pixel generation and the
//! rest of the peripheral's internals are outside this core.

use vstd::prelude::*;

use crate::bytes::{u32_byte, u32_set_byte};

verus! {

/// First register-byte offset of the display-control register within the
/// peripheral's register window.
pub const DISPCNT_OFFSET: u32 = 0x0000_0000;
/// Width of the display-control register in bytes.
pub const DISPCNT_BYTES: u32 = 4;

/// The video peripheral: owns the display-control register.
pub struct Ppu {
    /// Display-control register, stored little-endian byte-addressable.
    pub dispcnt: u32,
}

impl Ppu {
    /// A freshly powered-on video peripheral: all registers cleared.
    pub fn new() -> (p: Ppu)
        ensures
            p.dispcnt == 0,
    {
        Ppu { dispcnt: 0 }
    }

    /// The register byte visible at local offset `offset`.  Offsets holding
    /// no implemented register read back the documented fallback of zero.
    pub open spec fn read_register_spec(self, offset: u32) -> u8 {
        if offset < DISPCNT_BYTES {
            u32_byte(self.dispcnt, offset as int)
        } else {
            0
        }
    }

    /// The peripheral state after a byte write at local offset `offset`.
    /// Writes to offsets holding no implemented register are discarded.
    pub open spec fn write_register_spec(self, offset: u32, val: u8) -> Ppu {
        if offset < DISPCNT_BYTES {
            Ppu { dispcnt: u32_set_byte(self.dispcnt, offset as int, val) }
        } else {
            self
        }
    }

    /// Read one register byte at local offset `offset`.
    pub fn read_register(&self, offset: u32) -> (r: u8)
        ensures
            r == self.read_register_spec(offset),
    {
        if offset == 0 {
            (self.dispcnt & 0xFF) as u8
        } else if offset == 1 {
            ((self.dispcnt >> 8) & 0xFF) as u8
        } else if offset == 2 {
            ((self.dispcnt >> 16) & 0xFF) as u8
        } else if offset == 3 {
            ((self.dispcnt >> 24) & 0xFF) as u8
        } else {
            0
        }
    }

    /// Write one register byte at local offset `offset`.
    pub fn write_register(&mut self, offset: u32, val: u8)
        ensures
            *final(self) == old(self).write_register_spec(offset, val),
    {
        if offset == 0 {
            self.dispcnt = (self.dispcnt & 0xFFFF_FF00) | (val as u32);
        } else if offset == 1 {
            self.dispcnt = (self.dispcnt & 0xFFFF_00FF) | ((val as u32) << 8);
        } else if offset == 2 {
            self.dispcnt = (self.dispcnt & 0xFF00_FFFF) | ((val as u32) << 16);
        } else if offset == 3 {
            self.dispcnt = (self.dispcnt & 0x00FF_FFFF) | ((val as u32) << 24);
        }
    }
}

} // verus!
