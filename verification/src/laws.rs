//! Bus-wide laws, stated over the same mathematical state model that the
//! access contracts use and proved once for every reachable bus state.

use vstd::prelude::*;

use crate::bus::{BusView, DISPCNT_ADDR, IME_ADDR, OPEN_BUS_BYTE};
use crate::bytes::{
    lemma_u16_bytes_roundtrip, lemma_u32_bytes_roundtrip, lemma_u32_set_byte_get, u32_byte,
    u32_set_byte,
};
use crate::decoder::{
    decode_spec, in_bios, in_ewram, in_io, in_iwram, in_rom, in_unmapped, Region, EWRAM_END,
    EWRAM_SIZE, IWRAM_END, IWRAM_SIZE, ROM_BANK_SIZE, ROM_END,
};

verus! {

/// A word-aligned address has its two lowest bits clear.
proof fn lemma_align4_mask(addr: u32)
    requires
        addr % 4 == 0,
    ensures
        addr & 3 == 0,
{
    vstd::bits::lemma_u32_low_bits_mask_is_mod(addr, 2);
    vstd::bits::lemma_low_bits_mask_values();
    vstd::arithmetic::power2::lemma2_to64();
}

/// The two-byte and four-byte neighborhoods of an unmapped address, taken
/// from its containing aligned units, are unmapped as well: every region
/// boundary is four-byte aligned.
proof fn lemma_unmapped_block(addr: u32)
    by (bit_vector)
    requires
        in_unmapped(addr),
    ensures
        in_unmapped(addr & 0xFFFF_FFFE),
        in_unmapped((((addr & 0xFFFF_FFFE) + 1) as u32)),
        in_unmapped(addr & 0xFFFF_FFFC),
        in_unmapped((((addr & 0xFFFF_FFFC) + 1) as u32)),
        in_unmapped((((addr & 0xFFFF_FFFC) + 2) as u32)),
        in_unmapped((((addr & 0xFFFF_FFFC) + 3) as u32)),
{
}

/// For every address outside all declared regions, every read returns the
/// open-bus fallback and every write leaves the bus entirely unchanged.
pub proof fn lemma_unmapped_access(b: BusView, addr: u32, v8: u8, v16: u16, v32: u32)
    requires
        decode_spec(addr).0 == Region::Unmapped,
    ensures
        b.read8_spec(addr) == OPEN_BUS_BYTE,
        b.read16_spec(addr) == 0,
        b.read32_spec(addr) == 0,
        b.write8_spec(addr, v8) == b,
        b.write16_spec(addr, v16) == b,
        b.write32_spec(addr, v32) == b,
{
    assert(in_unmapped(addr));
    lemma_unmapped_block(addr);
    assert((0u8 as u16) | ((0u8 as u16) << 8u16) == 0) by (bit_vector);
    assert((0u8 as u32) | ((0u8 as u32) << 8u32) | ((0u8 as u32) << 16u32) | ((0u8 as u32)
        << 24u32) == 0) by (bit_vector);
}

/// Offsets of the four bytes of an aligned word in the external RAM bank:
/// consecutive, in bounds, and mirror-reduced consistently.
proof fn lemma_ewram_word(addr: u32)
    by (bit_vector)
    requires
        addr & 3 == 0,
        0x0200_0000 <= addr && addr < 0x0300_0000,
    ensures
        addr & 0xFFFF_FFFC == addr,
        0x0200_0000 <= ((addr + 1) as u32) && ((addr + 1) as u32) < 0x0300_0000,
        0x0200_0000 <= ((addr + 2) as u32) && ((addr + 2) as u32) < 0x0300_0000,
        0x0200_0000 <= ((addr + 3) as u32) && ((addr + 3) as u32) < 0x0300_0000,
        (addr - 0x0200_0000) % 0x40000 == addr & 0x3FFFF,
        (addr & 0x3FFFF) + 3 < 0x40000,
        (((addr + 1) as u32) - 0x0200_0000) % 0x40000 == (addr & 0x3FFFF) + 1,
        (((addr + 2) as u32) - 0x0200_0000) % 0x40000 == (addr & 0x3FFFF) + 2,
        (((addr + 3) as u32) - 0x0200_0000) % 0x40000 == (addr & 0x3FFFF) + 3,
{
}

/// Offsets of the four bytes of an aligned word in the internal RAM bank:
/// consecutive, in bounds, and mirror-reduced consistently.
proof fn lemma_iwram_word(addr: u32)
    by (bit_vector)
    requires
        addr & 3 == 0,
        0x0300_0000 <= addr && addr < 0x0400_0000,
    ensures
        addr & 0xFFFF_FFFC == addr,
        0x0300_0000 <= ((addr + 1) as u32) && ((addr + 1) as u32) < 0x0400_0000,
        0x0300_0000 <= ((addr + 2) as u32) && ((addr + 2) as u32) < 0x0400_0000,
        0x0300_0000 <= ((addr + 3) as u32) && ((addr + 3) as u32) < 0x0400_0000,
        (addr - 0x0300_0000) % 0x8000 == addr & 0x7FFF,
        (addr & 0x7FFF) + 3 < 0x8000,
        (((addr + 1) as u32) - 0x0300_0000) % 0x8000 == (addr & 0x7FFF) + 1,
        (((addr + 2) as u32) - 0x0300_0000) % 0x8000 == (addr & 0x7FFF) + 2,
        (((addr + 3) as u32) - 0x0300_0000) % 0x8000 == (addr & 0x7FFF) + 3,
{
}

/// After a 32-bit write to an aligned RAM address, the four bytes of that
/// word read back as the little-endian bytes of the written value.
pub proof fn lemma_ram_write32_little_endian(b: BusView, addr: u32, v: u32)
    requires
        b.wf(),
        addr % 4 == 0,
        in_ewram(addr) || in_iwram(addr),
    ensures
        b.write32_spec(addr, v).read8_spec(addr) == u32_byte(v, 0),
        b.write32_spec(addr, v).read8_spec(((addr + 1) as u32)) == u32_byte(v, 1),
        b.write32_spec(addr, v).read8_spec(((addr + 2) as u32)) == u32_byte(v, 2),
        b.write32_spec(addr, v).read8_spec(((addr + 3) as u32)) == u32_byte(v, 3),
{
    lemma_align4_mask(addr);
    if in_ewram(addr) {
        lemma_ewram_word(addr);
    } else {
        lemma_iwram_word(addr);
    }
}

/// Round-trip: for every 32-bit-aligned address in either RAM bank, writing
/// a 32-bit value and reading it back at the same address yields exactly
/// that value.
pub proof fn lemma_ram_write32_read32_roundtrip(b: BusView, addr: u32, v: u32)
    requires
        b.wf(),
        addr % 4 == 0,
        in_ewram(addr) || in_iwram(addr),
    ensures
        b.write32_spec(addr, v).read32_spec(addr) == v,
{
    lemma_ram_write32_little_endian(b, addr, v);
    lemma_align4_mask(addr);
    if in_ewram(addr) {
        lemma_ewram_word(addr);
    } else {
        lemma_iwram_word(addr);
    }
    lemma_u32_bytes_roundtrip(v);
}

/// Mirroring: a byte of the external RAM bank accessed through a mirror
/// one period above aliases the same underlying byte as the lower mapping,
/// for reads and writes alike.
pub proof fn lemma_ewram_mirror(b: BusView, addr: u32, v: u8)
    requires
        in_ewram(addr),
        addr + EWRAM_SIZE < EWRAM_END,
    ensures
        b.read8_spec(((addr + EWRAM_SIZE) as u32)) == b.read8_spec(addr),
        b.write8_spec(((addr + EWRAM_SIZE) as u32), v) == b.write8_spec(addr, v),
{
    assert((((addr + 0x40000) as u32) - 0x0200_0000) % 0x40000 == (addr - 0x0200_0000) % 0x40000)
        by (bit_vector)
        requires
            0x0200_0000 <= addr && addr + 0x40000 < 0x0300_0000,
    ;
}

/// Mirroring: a byte of the internal RAM bank accessed through a mirror
/// one period above aliases the same underlying byte as the lower mapping,
/// for reads and writes alike.
pub proof fn lemma_iwram_mirror(b: BusView, addr: u32, v: u8)
    requires
        in_iwram(addr),
        addr + IWRAM_SIZE < IWRAM_END,
    ensures
        b.read8_spec(((addr + IWRAM_SIZE) as u32)) == b.read8_spec(addr),
        b.write8_spec(((addr + IWRAM_SIZE) as u32), v) == b.write8_spec(addr, v),
{
    assert((((addr + 0x8000) as u32) - 0x0300_0000) % 0x8000 == (addr - 0x0300_0000) % 0x8000)
        by (bit_vector)
        requires
            0x0300_0000 <= addr && addr + 0x8000 < 0x0400_0000,
    ;
}

/// Reading any byte of the cartridge ROM block through the next wait-state
/// bank yields the same byte as the lower bank.
pub proof fn lemma_rom_mirror_read8(b: BusView, addr: u32)
    requires
        in_rom(addr),
        addr + ROM_BANK_SIZE < ROM_END,
    ensures
        b.read8_spec(((addr + ROM_BANK_SIZE) as u32)) == b.read8_spec(addr),
{
    assert((((addr + 0x0200_0000) as u32) - 0x0800_0000) % 0x0200_0000 == (addr - 0x0800_0000)
        % 0x0200_0000) by (bit_vector)
        requires
            0x0800_0000 <= addr && addr + 0x0200_0000 < 0x0E00_0000,
    ;
}

/// The two-byte and four-byte neighborhoods of a read-only address, taken
/// from its containing aligned units, stay inside the same read-only store.
proof fn lemma_ro_block(addr: u32)
    by (bit_vector)
    requires
        in_bios(addr) || in_rom(addr),
    ensures
        in_bios(addr) ==> in_bios(addr & 0xFFFF_FFFE) && in_bios(
            (((addr & 0xFFFF_FFFE) + 1) as u32),
        ) && in_bios(addr & 0xFFFF_FFFC) && in_bios((((addr & 0xFFFF_FFFC) + 1) as u32))
            && in_bios((((addr & 0xFFFF_FFFC) + 2) as u32)) && in_bios(
            (((addr & 0xFFFF_FFFC) + 3) as u32),
        ),
        in_rom(addr) ==> in_rom(addr & 0xFFFF_FFFE) && in_rom((((addr & 0xFFFF_FFFE) + 1) as u32))
            && in_rom(addr & 0xFFFF_FFFC) && in_rom((((addr & 0xFFFF_FFFC) + 1) as u32)) && in_rom(
            (((addr & 0xFFFF_FFFC) + 2) as u32),
        ) && in_rom((((addr & 0xFFFF_FFFC) + 3) as u32)),
{
}

/// Read-only enforcement: a write of any width to an address inside boot
/// ROM or cartridge ROM leaves the bus entirely unchanged, so every later
/// read returns the original loaded content.
pub proof fn lemma_rom_write_no_effect(b: BusView, addr: u32, v8: u8, v16: u16, v32: u32)
    requires
        decode_spec(addr).0 == Region::Bios || decode_spec(addr).0 == Region::CartridgeRom,
    ensures
        b.write8_spec(addr, v8) == b,
        b.write16_spec(addr, v16) == b,
        b.write32_spec(addr, v32) == b,
        b.write32_spec(addr, v32).read32_spec(addr) == b.read32_spec(addr),
{
    assert(in_bios(addr) || in_rom(addr));
    lemma_ro_block(addr);
}

/// Writing to the interrupt-enable register sets the enable flag to the low
/// bit of the written value, which subsequent reads of that register see;
/// nothing else on the bus changes.
pub proof fn lemma_ime_write32(b: BusView, v: u32)
    ensures
        b.write32_spec(IME_ADDR, v).ime == ((v & 1) == 1),
        b.write32_spec(IME_ADDR, v).read8_spec(IME_ADDR) == (if ((v & 1) == 1) {
            1u8
        } else {
            0u8
        }),
        b.write_io32_spec(IME_ADDR, v) == b.write32_spec(IME_ADDR, v),
        b.write32_spec(IME_ADDR, v) == (BusView { ime: (v & 1) == 1, ..b }),
{
    assert(0x0400_0208u32 & 0xFFFF_FFFC == 0x0400_0208) by (bit_vector);
    assert((((v & 0xFF) as u8) & 1 == 1) == (v & 1 == 1)) by (bit_vector);
    assert(in_io(IME_ADDR));
}

/// Writing one byte to the interrupt-enable register sets the enable flag
/// to the low bit of the written byte.
pub proof fn lemma_ime_write8(b: BusView, v: u8)
    ensures
        b.write8_spec(IME_ADDR, v).ime == ((v & 1) == 1),
        b.write8_spec(IME_ADDR, v).read8_spec(IME_ADDR) == (if ((v & 1) == 1) {
            1u8
        } else {
            0u8
        }),
{
    assert(in_io(IME_ADDR));
}

/// A halfword-aligned address has its lowest bit clear.
proof fn lemma_align2_mask(addr: u32)
    requires
        addr % 2 == 0,
    ensures
        addr & 1 == 0,
{
    vstd::bits::lemma_u32_low_bits_mask_is_mod(addr, 1);
    vstd::bits::lemma_low_bits_mask_values();
    vstd::arithmetic::power2::lemma2_to64();
}

/// Offsets of the two bytes of an aligned halfword in the external RAM
/// bank: consecutive, in bounds, and mirror-reduced consistently.
proof fn lemma_ewram_half(addr: u32)
    by (bit_vector)
    requires
        addr & 1 == 0,
        0x0200_0000 <= addr && addr < 0x0300_0000,
    ensures
        addr & 0xFFFF_FFFE == addr,
        0x0200_0000 <= ((addr + 1) as u32) && ((addr + 1) as u32) < 0x0300_0000,
        (addr - 0x0200_0000) % 0x40000 == addr & 0x3FFFF,
        (addr & 0x3FFFF) + 1 < 0x40000,
        (((addr + 1) as u32) - 0x0200_0000) % 0x40000 == (addr & 0x3FFFF) + 1,
{
}

/// Offsets of the two bytes of an aligned halfword in the internal RAM
/// bank: consecutive, in bounds, and mirror-reduced consistently.
proof fn lemma_iwram_half(addr: u32)
    by (bit_vector)
    requires
        addr & 1 == 0,
        0x0300_0000 <= addr && addr < 0x0400_0000,
    ensures
        addr & 0xFFFF_FFFE == addr,
        0x0300_0000 <= ((addr + 1) as u32) && ((addr + 1) as u32) < 0x0400_0000,
        (addr - 0x0300_0000) % 0x8000 == addr & 0x7FFF,
        (addr & 0x7FFF) + 1 < 0x8000,
        (((addr + 1) as u32) - 0x0300_0000) % 0x8000 == (addr & 0x7FFF) + 1,
{
}

/// Round-trip: for every 16-bit-aligned address in either RAM bank, writing
/// a 16-bit value and reading it back at the same address yields exactly
/// that value.
pub proof fn lemma_ram_write16_read16_roundtrip(b: BusView, addr: u32, v: u16)
    requires
        b.wf(),
        addr % 2 == 0,
        in_ewram(addr) || in_iwram(addr),
    ensures
        b.write16_spec(addr, v).read16_spec(addr) == v,
{
    lemma_align2_mask(addr);
    if in_ewram(addr) {
        lemma_ewram_half(addr);
    } else {
        lemma_iwram_half(addr);
    }
    lemma_u16_bytes_roundtrip(v);
}

/// Round-trip through the forwarded register: a 32-bit write to the
/// display-control register lands in the video peripheral whole, and reads
/// back unchanged.
pub proof fn lemma_dispcnt_write32_read32_roundtrip(b: BusView, v: u32)
    ensures
        b.write32_spec(DISPCNT_ADDR, v).dispcnt == v,
        b.write32_spec(DISPCNT_ADDR, v).read32_spec(DISPCNT_ADDR) == v,
{
    assert(0x0400_0000u32 & 0xFFFF_FFFC == 0x0400_0000) by (bit_vector);
    assert(in_io(DISPCNT_ADDR));
    let d0 = u32_set_byte(b.dispcnt, 0, u32_byte(v, 0));
    let d1 = u32_set_byte(d0, 1, u32_byte(v, 1));
    let d2 = u32_set_byte(d1, 2, u32_byte(v, 2));
    let d3 = u32_set_byte(d2, 3, u32_byte(v, 3));
    lemma_u32_set_byte_get(b.dispcnt, 0, u32_byte(v, 0), 0);
    lemma_u32_set_byte_get(d0, 1, u32_byte(v, 1), 0);
    lemma_u32_set_byte_get(d0, 1, u32_byte(v, 1), 1);
    lemma_u32_set_byte_get(d1, 2, u32_byte(v, 2), 0);
    lemma_u32_set_byte_get(d1, 2, u32_byte(v, 2), 1);
    lemma_u32_set_byte_get(d1, 2, u32_byte(v, 2), 2);
    lemma_u32_set_byte_get(d2, 3, u32_byte(v, 3), 0);
    lemma_u32_set_byte_get(d2, 3, u32_byte(v, 3), 1);
    lemma_u32_set_byte_get(d2, 3, u32_byte(v, 3), 2);
    lemma_u32_set_byte_get(d2, 3, u32_byte(v, 3), 3);
    lemma_u32_bytes_roundtrip(v);
    lemma_u32_bytes_roundtrip(d3);
}

} // verus!
