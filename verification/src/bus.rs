//! The bus facade: the single choke point through which the emulated CPU
//! reaches memory and peripherals.
//!
//! Every access decodes the address, then dispatches to a backing store, to
//! an I/O register, or to the open-bus fallback.  All accesses are total:
//! unmapped addresses and unimplemented registers are tolerated with a
//! defined fallback, writes to read-only stores are silently discarded, and
//! an access not aligned to its width is truncated to the containing
//! aligned unit.

use vstd::prelude::*;

use crate::bytes::{u16_byte, u16_from_bytes, u32_byte, u32_from_bytes, u32_set_byte};
use crate::decoder::{decode, decode_spec, in_io, Region, BIOS_SIZE, EWRAM_SIZE, IWRAM_SIZE, ROM_BANK_SIZE};
use crate::mem::{LoadError, Memory};
use crate::ppu::{Ppu, DISPCNT_BYTES};

verus! {

/// The value read back from an address no device answers, and from a loaded
/// store past its image's length.
pub const OPEN_BUS_BYTE: u8 = 0;

/// Local offset of the interrupt-enable register within the I/O block.
/// Only its lowest byte is implemented; its low bit is the enable flag.
pub const IME_OFFSET: u32 = 0x0000_0208;

/// Flat address of the interrupt-enable register.
pub const IME_ADDR: u32 = 0x0400_0208;

/// Flat address of the video peripheral's display-control register.
pub const DISPCNT_ADDR: u32 = 0x0400_0000;

/// The mathematical state of the bus: the contents of every backing store
/// and every implemented register.
#[verifier::ext_equal]
pub ghost struct BusView {
    /// Contents of the boot ROM.
    pub bios: Seq<u8>,
    /// Contents of the cartridge ROM image.
    pub rom: Seq<u8>,
    /// Contents of the external RAM bank.
    pub ewram: Seq<u8>,
    /// Contents of the internal RAM bank.
    pub iwram: Seq<u8>,
    /// The interrupt-enable flag.
    pub ime: bool,
    /// The video peripheral's display-control register.
    pub dispcnt: u32,
}

impl BusView {
    /// The stores have the sizes the memory map declares for them.
    pub open spec fn wf(self) -> bool {
        &&& self.bios.len() == BIOS_SIZE
        &&& self.rom.len() <= ROM_BANK_SIZE
        &&& self.ewram.len() == EWRAM_SIZE
        &&& self.iwram.len() == IWRAM_SIZE
    }

    /// The byte visible at local offset `off` of the I/O block.  Offsets
    /// holding no implemented register read back the documented fallback.
    pub open spec fn io_read8_spec(self, off: u32) -> u8 {
        if off < DISPCNT_BYTES {
            u32_byte(self.dispcnt, off as int)
        } else if off == IME_OFFSET {
            if self.ime {
                1
            } else {
                0
            }
        } else {
            OPEN_BUS_BYTE
        }
    }

    /// The bus state after a byte write at local offset `off` of the I/O
    /// block.  Writes to offsets holding no implemented register are
    /// accepted and discarded.
    pub open spec fn io_write8_spec(self, off: u32, val: u8) -> BusView {
        if off < DISPCNT_BYTES {
            BusView { dispcnt: u32_set_byte(self.dispcnt, off as int, val), ..self }
        } else if off == IME_OFFSET {
            BusView { ime: (val & 1) == 1, ..self }
        } else {
            self
        }
    }

    /// The byte the CPU reads at `addr`: the backing store's byte for
    /// mapped storage, the register transform for I/O, and the open-bus
    /// fallback for unmapped addresses and for cartridge offsets past the
    /// loaded image.
    pub open spec fn read8_spec(self, addr: u32) -> u8 {
        let (region, off) = decode_spec(addr);
        match region {
            Region::Bios => self.bios[off as int],
            Region::CartridgeRom => if (off as int) < self.rom.len() {
                self.rom[off as int]
            } else {
                OPEN_BUS_BYTE
            },
            Region::ExternalRam => self.ewram[off as int],
            Region::InternalRam => self.iwram[off as int],
            Region::Io => self.io_read8_spec(off),
            Region::Unmapped => OPEN_BUS_BYTE,
        }
    }

    /// The bus state after the CPU writes one byte at `addr`.  Only RAM
    /// banks and implemented I/O registers change; writes to read-only
    /// stores and unmapped addresses are accepted and have no effect.
    pub open spec fn write8_spec(self, addr: u32, val: u8) -> BusView {
        let (region, off) = decode_spec(addr);
        match region {
            Region::ExternalRam => BusView { ewram: self.ewram.update(off as int, val), ..self },
            Region::InternalRam => BusView { iwram: self.iwram.update(off as int, val), ..self },
            Region::Io => self.io_write8_spec(off, val),
            _ => self,
        }
    }

    /// The 16-bit value read at `addr`: the two little-endian bytes of the
    /// containing aligned halfword.
    pub open spec fn read16_spec(self, addr: u32) -> u16 {
        let a = addr & 0xFFFF_FFFE;
        u16_from_bytes(self.read8_spec(a), self.read8_spec((a + 1) as u32))
    }

    /// The bus state after a 16-bit write at `addr`: two little-endian byte
    /// writes to the containing aligned halfword.
    pub open spec fn write16_spec(self, addr: u32, val: u16) -> BusView {
        let a = addr & 0xFFFF_FFFE;
        self.write8_spec(a, u16_byte(val, 0)).write8_spec((a + 1) as u32, u16_byte(val, 1))
    }

    /// The 32-bit value read at `addr`: the four little-endian bytes of the
    /// containing aligned word.
    pub open spec fn read32_spec(self, addr: u32) -> u32 {
        let a = addr & 0xFFFF_FFFC;
        u32_from_bytes(
            self.read8_spec(a),
            self.read8_spec((a + 1) as u32),
            self.read8_spec((a + 2) as u32),
            self.read8_spec((a + 3) as u32),
        )
    }

    /// The bus state after a 32-bit write at `addr`: four little-endian
    /// byte writes to the containing aligned word.
    pub open spec fn write32_spec(self, addr: u32, val: u32) -> BusView {
        let a = addr & 0xFFFF_FFFC;
        self.write8_spec(a, u32_byte(val, 0)).write8_spec(
            (a + 1) as u32,
            u32_byte(val, 1),
        ).write8_spec((a + 2) as u32, u32_byte(val, 2)).write8_spec(
            (a + 3) as u32,
            u32_byte(val, 3),
        )
    }

    /// The bus state after a 32-bit write addressed directly at the I/O
    /// block: a 32-bit write for I/O addresses, no effect elsewhere.
    pub open spec fn write_io32_spec(self, addr: u32, val: u32) -> BusView {
        if in_io(addr) {
            self.write32_spec(addr, val)
        } else {
            self
        }
    }
}

/// The bus: composes the decoder, the backing stores and the peripheral
/// into the width-specific read/write operations the CPU sees.
pub struct Bus {
    /// The main, non-I/O memory and bus-local registers.
    pub mem: Memory,
    /// The video peripheral.
    pub ppu: Ppu,
}

impl View for Bus {
    type V = BusView;

    open spec fn view(&self) -> BusView {
        BusView {
            bios: self.mem.bios@,
            rom: self.mem.rom@,
            ewram: self.mem.ewram@,
            iwram: self.mem.iwram@,
            ime: self.mem.ime,
            dispcnt: self.ppu.dispcnt,
        }
    }
}

impl Bus {
    /// Assemble the bus from the loaded boot ROM and cartridge images.
    /// Fails before any emulation begins when an image cannot fit the map
    /// it is loaded into; otherwise the session starts with zeroed RAM,
    /// interrupts disabled and the video peripheral cleared.
    pub fn new(bios: Vec<u8>, rom: Vec<u8>) -> (r: Result<Bus, LoadError>)
        ensures
            r is Ok <==> bios@.len() == BIOS_SIZE && rom@.len() <= ROM_BANK_SIZE,
            bios@.len() != BIOS_SIZE ==> r == Result::<Bus, LoadError>::Err(LoadError::BiosSize),
            bios@.len() == BIOS_SIZE && rom@.len() > ROM_BANK_SIZE ==> r == Result::<
                Bus,
                LoadError,
            >::Err(LoadError::CartridgeTooLarge),
            r matches Ok(b) ==> {
                &&& b@.wf()
                &&& b@.bios == bios@
                &&& b@.rom == rom@
                &&& b@.ewram == Seq::new(EWRAM_SIZE as nat, |i: int| 0u8)
                &&& b@.iwram == Seq::new(IWRAM_SIZE as nat, |i: int| 0u8)
                &&& b@.ime == false
                &&& b@.dispcnt == 0
            },
    {
        match Memory::new(bios, rom) {
            Ok(mem) => Ok(Bus { mem, ppu: Ppu::new() }),
            Err(e) => Err(e),
        }
    }

    /// Read one register byte at local offset `off` of the I/O block.
    fn io_read8(&self, off: u32) -> (r: u8)
        ensures
            r == self@.io_read8_spec(off),
    {
        if off < DISPCNT_BYTES {
            self.ppu.read_register(off)
        } else if off == IME_OFFSET {
            if self.mem.ime {
                1
            } else {
                0
            }
        } else {
            OPEN_BUS_BYTE
        }
    }

    /// Write one register byte at local offset `off` of the I/O block.
    fn io_write8(&mut self, off: u32, val: u8)
        ensures
            final(self)@ == old(self)@.io_write8_spec(off, val),
    {
        if off < DISPCNT_BYTES {
            self.ppu.write_register(off, val);
        } else if off == IME_OFFSET {
            self.mem.ime = (val & 1) == 1;
        }
    }

    /// Read the byte at `address`.  Total: every address yields a defined
    /// value, with the open-bus fallback where no device answers.
    pub fn read8(&self, address: u32) -> (r: u8)
        requires
            self@.wf(),
        ensures
            r == self@.read8_spec(address),
    {
        let (region, off) = decode(address);
        match region {
            Region::Bios => self.mem.bios[off as usize],
            Region::CartridgeRom => {
                if (off as usize) < self.mem.rom.len() {
                    self.mem.rom[off as usize]
                } else {
                    OPEN_BUS_BYTE
                }
            },
            Region::ExternalRam => self.mem.ewram[off as usize],
            Region::InternalRam => self.mem.iwram[off as usize],
            Region::Io => self.io_read8(off),
            Region::Unmapped => OPEN_BUS_BYTE,
        }
    }

    /// Read the 16-bit little-endian value at `address`, truncated to the
    /// containing aligned halfword.
    pub fn read16(&self, address: u32) -> (r: u16)
        requires
            self@.wf(),
        ensures
            r == self@.read16_spec(address),
    {
        let a = address & 0xFFFF_FFFE;
        proof {
            assert(address & 0xFFFF_FFFE <= 0xFFFF_FFFE) by (bit_vector);
        }
        let lo = self.read8(a);
        let hi = self.read8(a + 1);
        (lo as u16) | ((hi as u16) << 8u16)
    }

    /// Read the 32-bit little-endian value at `address`, truncated to the
    /// containing aligned word.
    pub fn read32(&self, address: u32) -> (r: u32)
        requires
            self@.wf(),
        ensures
            r == self@.read32_spec(address),
    {
        let a = address & 0xFFFF_FFFC;
        proof {
            assert(address & 0xFFFF_FFFC <= 0xFFFF_FFFC) by (bit_vector);
        }
        let b0 = self.read8(a);
        let b1 = self.read8(a + 1);
        let b2 = self.read8(a + 2);
        let b3 = self.read8(a + 3);
        (b0 as u32) | ((b1 as u32) << 8u32) | ((b2 as u32) << 16u32) | ((b3 as u32) << 24u32)
    }

    /// Write one byte at `address`.  Total and never failing: RAM banks and
    /// implemented registers change, everything else absorbs the write.
    pub fn write8(&mut self, address: u32, val: u8)
        requires
            old(self)@.wf(),
        ensures
            final(self)@ == old(self)@.write8_spec(address, val),
            final(self)@.wf(),
    {
        let (region, off) = decode(address);
        match region {
            Region::ExternalRam => {
                self.mem.ewram[off as usize] = val;
            },
            Region::InternalRam => {
                self.mem.iwram[off as usize] = val;
            },
            Region::Io => {
                self.io_write8(off, val);
            },
            _ => {},
        }
    }

    /// Write a 16-bit little-endian value at `address`, truncated to the
    /// containing aligned halfword.
    pub fn write16(&mut self, address: u32, val: u16)
        requires
            old(self)@.wf(),
        ensures
            final(self)@ == old(self)@.write16_spec(address, val),
            final(self)@.wf(),
    {
        let a = address & 0xFFFF_FFFE;
        proof {
            assert(address & 0xFFFF_FFFE <= 0xFFFF_FFFE) by (bit_vector);
        }
        self.write8(a, (val & 0xFF) as u8);
        self.write8(a + 1, ((val >> 8u16) & 0xFF) as u8);
    }

    /// Write a 32-bit little-endian value at `address`, truncated to the
    /// containing aligned word.
    pub fn write32(&mut self, address: u32, val: u32)
        requires
            old(self)@.wf(),
        ensures
            final(self)@ == old(self)@.write32_spec(address, val),
            final(self)@.wf(),
    {
        let a = address & 0xFFFF_FFFC;
        proof {
            assert(address & 0xFFFF_FFFC <= 0xFFFF_FFFC) by (bit_vector);
        }
        self.write8(a, (val & 0xFF) as u8);
        self.write8(a + 1, ((val >> 8u32) & 0xFF) as u8);
        self.write8(a + 2, ((val >> 16u32) & 0xFF) as u8);
        self.write8(a + 3, ((val >> 24u32) & 0xFF) as u8);
    }

    /// Write a 32-bit value addressed directly at the I/O block, as the
    /// CPU-facing dispatch does for I/O addresses.  Addresses outside the
    /// I/O block are absorbed without effect.
    #[allow(non_snake_case)]
    pub fn writeIO32(&mut self, address: u32, val: u32)
        requires
            old(self)@.wf(),
        ensures
            final(self)@ == old(self)@.write_io32_spec(address, val),
            final(self)@.wf(),
    {
        let (region, _off) = decode(address);
        if region == Region::Io {
            self.write32(address, val);
        }
    }
}

} // verus!
