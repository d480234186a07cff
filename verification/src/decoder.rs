//! The address decoder: a pure, total function from a flat 32-bit address to
//! a region of the console's memory map and a local offset within it.
//!
//! Each region declares a base, a size, and (for mirrored regions) a mirror
//! period.  Both RAM banks are mirrored throughout their address block, and
//! the cartridge ROM block repeats across three wait-state banks.  Addresses
//! matching no declared region resolve to `Unmapped` — never an error.

use vstd::prelude::*;

verus! {

/// Base address of the boot ROM.
pub const BIOS_BASE: u32 = 0x0000_0000;
/// Size of the boot ROM in bytes (16 KiB).
pub const BIOS_SIZE: u32 = 0x0000_4000;

/// Base address of the external RAM bank (256 KiB, mirrored).
pub const EWRAM_BASE: u32 = 0x0200_0000;
/// Size of the external RAM bank in bytes; also its mirror period.
pub const EWRAM_SIZE: u32 = 0x0004_0000;
/// First address past the external RAM block (mirrors included).
pub const EWRAM_END: u32 = 0x0300_0000;

/// Base address of the internal RAM bank (32 KiB, mirrored).
pub const IWRAM_BASE: u32 = 0x0300_0000;
/// Size of the internal RAM bank in bytes; also its mirror period.
pub const IWRAM_SIZE: u32 = 0x0000_8000;
/// First address past the internal RAM block (mirrors included).
pub const IWRAM_END: u32 = 0x0400_0000;

/// Base address of the memory-mapped I/O block.
pub const IO_BASE: u32 = 0x0400_0000;
/// Size of the memory-mapped I/O block in bytes.
pub const IO_SIZE: u32 = 0x0100_0000;
/// First address past the memory-mapped I/O block.
pub const IO_END: u32 = 0x0500_0000;

/// Base address of the cartridge ROM block.
pub const ROM_BASE: u32 = 0x0800_0000;
/// Size of one cartridge ROM bank; also the mirror period of the block.
pub const ROM_BANK_SIZE: u32 = 0x0200_0000;
/// First address past the cartridge ROM block (three mirrored banks).
pub const ROM_END: u32 = 0x0E00_0000;

/// The region of the memory map that an address belongs to.
#[derive(Clone, Copy, Debug, PartialEq, Eq, Structural)]
pub enum Region {
    /// Boot ROM: read-only startup firmware.
    Bios,
    /// Cartridge ROM: read-only program image, mirrored across three banks.
    CartridgeRom,
    /// External RAM bank: read/write, mirrored.
    ExternalRam,
    /// Internal RAM bank: read/write, mirrored.
    InternalRam,
    /// Memory-mapped I/O registers.
    Io,
    /// No declared region answers this address.
    Unmapped,
}

/// True when `addr` lies in the boot ROM region.
pub open spec fn in_bios(addr: u32) -> bool {
    addr < BIOS_SIZE
}

/// True when `addr` lies in the external RAM block (any mirror).
pub open spec fn in_ewram(addr: u32) -> bool {
    EWRAM_BASE <= addr && addr < EWRAM_END
}

/// True when `addr` lies in the internal RAM block (any mirror).
pub open spec fn in_iwram(addr: u32) -> bool {
    IWRAM_BASE <= addr && addr < IWRAM_END
}

/// True when `addr` lies in the memory-mapped I/O block.
pub open spec fn in_io(addr: u32) -> bool {
    IO_BASE <= addr && addr < IO_END
}

/// True when `addr` lies in the cartridge ROM block (any bank).
pub open spec fn in_rom(addr: u32) -> bool {
    ROM_BASE <= addr && addr < ROM_END
}

/// True when no declared region answers `addr`.
pub open spec fn in_unmapped(addr: u32) -> bool {
    !in_bios(addr) && !in_ewram(addr) && !in_iwram(addr) && !in_io(addr) && !in_rom(addr)
}

/// The decoded meaning of an address: its region and the local offset of the
/// byte it names within that region's backing store.  Mirrors reduce to the
/// primary mapping, so every mirror instance of a byte gets the same offset.
pub open spec fn decode_spec(addr: u32) -> (Region, u32) {
    if in_bios(addr) {
        (Region::Bios, addr)
    } else if in_ewram(addr) {
        (Region::ExternalRam, (((addr - EWRAM_BASE) % (EWRAM_SIZE as int)) as u32))
    } else if in_iwram(addr) {
        (Region::InternalRam, (((addr - IWRAM_BASE) % (IWRAM_SIZE as int)) as u32))
    } else if in_io(addr) {
        (Region::Io, ((addr - IO_BASE) as u32))
    } else if in_rom(addr) {
        (Region::CartridgeRom, (((addr - ROM_BASE) % (ROM_BANK_SIZE as int)) as u32))
    } else {
        (Region::Unmapped, 0)
    }
}

/// The decoder is total and deterministic: the declared regions do not
/// overlap, every address belongs to exactly one of them or to the explicit
/// unmapped fallback, and the decoded region is exactly the one whose range
/// the address lies in.
pub proof fn lemma_decode_total(addr: u32)
    ensures
        decode_spec(addr).0 == Region::Bios <==> in_bios(addr),
        decode_spec(addr).0 == Region::ExternalRam <==> in_ewram(addr),
        decode_spec(addr).0 == Region::InternalRam <==> in_iwram(addr),
        decode_spec(addr).0 == Region::Io <==> in_io(addr),
        decode_spec(addr).0 == Region::CartridgeRom <==> in_rom(addr),
        decode_spec(addr).0 == Region::Unmapped <==> in_unmapped(addr),
{
}

/// The local offset is always in bounds for the region's backing store.
pub proof fn lemma_decode_bounds(addr: u32)
    ensures
        decode_spec(addr).0 == Region::Bios ==> decode_spec(addr).1 < BIOS_SIZE,
        decode_spec(addr).0 == Region::ExternalRam ==> decode_spec(addr).1 < EWRAM_SIZE,
        decode_spec(addr).0 == Region::InternalRam ==> decode_spec(addr).1 < IWRAM_SIZE,
        decode_spec(addr).0 == Region::Io ==> decode_spec(addr).1 < IO_SIZE,
        decode_spec(addr).0 == Region::CartridgeRom ==> decode_spec(addr).1 < ROM_BANK_SIZE,
{
}

/// Decode a flat 32-bit address into (region, local offset).
///
/// Pure and total: every address resolves, with `Unmapped` as the explicit
/// fallback for addresses no declared region answers.
pub fn decode(address: u32) -> (r: (Region, u32))
    ensures
        r == decode_spec(address),
        r.0 == Region::Bios ==> r.1 < BIOS_SIZE,
        r.0 == Region::ExternalRam ==> r.1 < EWRAM_SIZE,
        r.0 == Region::InternalRam ==> r.1 < IWRAM_SIZE,
        r.0 == Region::Io ==> r.1 < IO_SIZE,
        r.0 == Region::CartridgeRom ==> r.1 < ROM_BANK_SIZE,
{
    if address < BIOS_SIZE {
        (Region::Bios, address)
    } else if EWRAM_BASE <= address && address < EWRAM_END {
        (Region::ExternalRam, (address - EWRAM_BASE) % EWRAM_SIZE)
    } else if IWRAM_BASE <= address && address < IWRAM_END {
        (Region::InternalRam, (address - IWRAM_BASE) % IWRAM_SIZE)
    } else if IO_BASE <= address && address < IO_END {
        (Region::Io, address - IO_BASE)
    } else if ROM_BASE <= address && address < ROM_END {
        (Region::CartridgeRom, (address - ROM_BASE) % ROM_BANK_SIZE)
    } else {
        (Region::Unmapped, 0)
    }
}

} // verus!
