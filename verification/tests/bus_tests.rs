use gba_bus::bus::Bus;

fn make_bus(rom: Vec<u8>) -> Bus {
    let bios = vec![0u8; 0x4000];
    Bus::new(bios, rom).unwrap()
}

#[test]
fn unmapped_reads_return_fallback() {
    let bus = make_bus(vec![0u8; 16]);
    // between boot ROM and external RAM
    assert_eq!(bus.read8(0x0000_4000), 0);
    assert_eq!(bus.read16(0x0100_0000), 0);
    assert_eq!(bus.read32(0x0100_0000), 0);
    // between I/O block and cartridge ROM
    assert_eq!(bus.read32(0x0500_0000), 0);
    // past the cartridge ROM banks
    assert_eq!(bus.read8(0x0E00_0000), 0);
    assert_eq!(bus.read32(0xFFFF_FFFC), 0);
}

#[test]
fn unmapped_writes_are_no_ops() {
    let mut bus = make_bus(vec![0u8; 16]);
    bus.write32(0x0200_0000, 0xAABB_CCDD);
    bus.write8(0x0000_4000, 0xFF);
    bus.write16(0x0100_0000, 0xFFFF);
    bus.write32(0x0500_0000, 0xFFFF_FFFF);
    bus.write32(0xFFFF_FFFC, 0xFFFF_FFFF);
    // nothing reachable changed
    assert_eq!(bus.read32(0x0200_0000), 0xAABB_CCDD);
    assert_eq!(bus.read32(0x0000_4000), 0);
    assert_eq!(bus.read32(0x0100_0000), 0);
}

#[test]
fn ram_write32_read32_roundtrip() {
    let mut bus = make_bus(vec![0u8; 16]);
    let samples = [0x0000_0000u32, 0xFFFF_FFFF, 0x1234_5678, 0x8000_0001];
    let addrs = [0x0200_0000u32, 0x0203_FFFC, 0x0300_0000, 0x0300_7FFC];
    for &addr in addrs.iter() {
        for &v in samples.iter() {
            bus.write32(addr, v);
            assert_eq!(bus.read32(addr), v);
        }
    }
}

#[test]
fn ram_write16_read16_roundtrip() {
    let mut bus = make_bus(vec![0u8; 16]);
    bus.write16(0x0200_0000, 0xBEEF);
    assert_eq!(bus.read16(0x0200_0000), 0xBEEF);
    bus.write16(0x0300_0002, 0x1234);
    assert_eq!(bus.read16(0x0300_0002), 0x1234);
}

#[test]
fn ram_banks_are_zero_initialized() {
    let bus = make_bus(vec![0u8; 16]);
    assert_eq!(bus.read32(0x0200_0000), 0);
    assert_eq!(bus.read32(0x0203_FFFC), 0);
    assert_eq!(bus.read32(0x0300_0000), 0);
    assert_eq!(bus.read32(0x0300_7FFC), 0);
}

#[test]
fn ewram_mirror_aliases_primary_mapping() {
    let mut bus = make_bus(vec![0u8; 16]);
    bus.write8(0x0200_0000, 0x5A);
    assert_eq!(bus.read8(0x0204_0000), 0x5A);
    bus.write8(0x0208_0004, 0xC3);
    assert_eq!(bus.read8(0x0200_0004), 0xC3);
}

#[test]
fn iwram_mirror_aliases_primary_mapping() {
    let mut bus = make_bus(vec![0u8; 16]);
    bus.write8(0x0300_0000, 0x77);
    assert_eq!(bus.read8(0x0300_8000), 0x77);
    bus.write8(0x03FF_FFFF, 0x99);
    assert_eq!(bus.read8(0x0300_7FFF), 0x99);
}

#[test]
fn write32_is_little_endian() {
    let mut bus = make_bus(vec![0u8; 16]);
    bus.write32(0x0200_0010, 0x1234_5678);
    assert_eq!(bus.read8(0x0200_0010), 0x78);
    assert_eq!(bus.read8(0x0200_0011), 0x56);
    assert_eq!(bus.read8(0x0200_0012), 0x34);
    assert_eq!(bus.read8(0x0200_0013), 0x12);
}

#[test]
fn read16_and_read32_compose_bytes_little_endian() {
    let mut bus = make_bus(vec![0u8; 16]);
    bus.write8(0x0300_0020, 0xEF);
    bus.write8(0x0300_0021, 0xBE);
    bus.write8(0x0300_0022, 0xAD);
    bus.write8(0x0300_0023, 0xDE);
    assert_eq!(bus.read16(0x0300_0020), 0xBEEF);
    assert_eq!(bus.read16(0x0300_0022), 0xDEAD);
    assert_eq!(bus.read32(0x0300_0020), 0xDEAD_BEEF);
}

#[test]
fn unaligned_accesses_truncate_to_aligned_unit() {
    let mut bus = make_bus(vec![0u8; 16]);
    bus.write32(0x0200_0043, 0xCAFE_F00D);
    assert_eq!(bus.read32(0x0200_0040), 0xCAFE_F00D);
    assert_eq!(bus.read32(0x0200_0041), 0xCAFE_F00D);
    assert_eq!(bus.read16(0x0200_0041), 0xF00D);
    bus.write16(0x0300_0031, 0xABCD);
    assert_eq!(bus.read16(0x0300_0030), 0xABCD);
}

#[test]
fn rom_reads_see_loaded_content() {
    let bus = make_bus(vec![0x11, 0x22, 0x33, 0x44, 0x55, 0x66, 0x77, 0x88]);
    assert_eq!(bus.read8(0x0800_0000), 0x11);
    assert_eq!(bus.read8(0x0800_0007), 0x88);
    assert_eq!(bus.read16(0x0800_0000), 0x2211);
    assert_eq!(bus.read32(0x0800_0004), 0x8877_6655);
}

#[test]
fn rom_banks_mirror_the_image() {
    let bus = make_bus(vec![0x11, 0x22, 0x33, 0x44]);
    assert_eq!(bus.read32(0x0800_0000), 0x4433_2211);
    assert_eq!(bus.read32(0x0A00_0000), 0x4433_2211);
    assert_eq!(bus.read32(0x0C00_0000), 0x4433_2211);
}

#[test]
fn rom_writes_are_discarded() {
    let mut bus = make_bus(vec![0x11, 0x22, 0x33, 0x44]);
    bus.write32(0x0800_0000, 0xFFFF_FFFF);
    bus.write16(0x0800_0000, 0xFFFF);
    bus.write8(0x0800_0003, 0xFF);
    assert_eq!(bus.read32(0x0800_0000), 0x4433_2211);
}

#[test]
fn bios_reads_see_loaded_content_and_writes_are_discarded() {
    let mut bios = vec![0u8; 0x4000];
    bios[0] = 0xAA;
    bios[1] = 0xBB;
    bios[0x3FFF] = 0xCC;
    let mut bus = Bus::new(bios, vec![0u8; 4]).unwrap();
    assert_eq!(bus.read16(0x0000_0000), 0xBBAA);
    assert_eq!(bus.read8(0x0000_3FFF), 0xCC);
    bus.write32(0x0000_0000, 0xFFFF_FFFF);
    bus.write8(0x0000_3FFF, 0x00);
    assert_eq!(bus.read16(0x0000_0000), 0xBBAA);
    assert_eq!(bus.read8(0x0000_3FFF), 0xCC);
}

#[test]
fn short_cartridge_reads_past_length_return_fallback() {
    let bus = make_bus(vec![0xAB, 0xCD]);
    // past the loaded length but inside the mapped bank
    assert_eq!(bus.read8(0x0800_0002), 0);
    assert_eq!(bus.read32(0x0800_0010), 0);
    assert_eq!(bus.read32(0x0DFF_FFFC), 0);
    // partially loaded halfword/word: missing bytes read as the fallback
    assert_eq!(bus.read16(0x0800_0000), 0xCDAB);
    assert_eq!(bus.read32(0x0800_0000), 0x0000_CDAB);
}

#[test]
fn interrupt_enable_register_write_and_readback() {
    let mut bus = make_bus(vec![0u8; 4]);
    bus.write32(0x0400_0208, 1);
    assert_eq!(bus.read8(0x0400_0208), 1);
    assert_eq!(bus.read32(0x0400_0208), 1);
    bus.write32(0x0400_0208, 0);
    assert_eq!(bus.read8(0x0400_0208), 0);
    // only the low bit of the value matters
    bus.write32(0x0400_0208, 0xFFFF_FFFE);
    assert_eq!(bus.read8(0x0400_0208), 0);
    bus.write32(0x0400_0208, 3);
    assert_eq!(bus.read8(0x0400_0208), 1);
}

#[test]
fn write_io32_dispatches_only_io_addresses() {
    let mut bus = make_bus(vec![0u8; 4]);
    bus.writeIO32(0x0400_0208, 1);
    assert_eq!(bus.read8(0x0400_0208), 1);
    // a RAM address handed to the I/O path is absorbed without effect
    bus.writeIO32(0x0200_0000, 0xDEAD_BEEF);
    assert_eq!(bus.read32(0x0200_0000), 0);
}

#[test]
fn display_control_register_write_and_readback() {
    let mut bus = make_bus(vec![0u8; 4]);
    bus.write32(0x0400_0000, 0xDEAD_BEEF);
    assert_eq!(bus.read32(0x0400_0000), 0xDEAD_BEEF);
    assert_eq!(bus.read8(0x0400_0001), 0xBE);
    bus.write16(0x0400_0002, 0x1234);
    assert_eq!(bus.read32(0x0400_0000), 0x1234_BEEF);
    bus.write8(0x0400_0000, 0x00);
    assert_eq!(bus.read32(0x0400_0000), 0x1234_BE00);
}

#[test]
fn unimplemented_io_registers_are_tolerated() {
    let mut bus = make_bus(vec![0u8; 4]);
    assert_eq!(bus.read8(0x0400_0100), 0);
    assert_eq!(bus.read32(0x0400_0100), 0);
    bus.write32(0x0400_0100, 0xFFFF_FFFF);
    assert_eq!(bus.read32(0x0400_0100), 0);
    // bytes of the interrupt-enable word above the implemented one
    bus.write8(0x0400_0209, 0xFF);
    assert_eq!(bus.read8(0x0400_0209), 0);
    assert_eq!(bus.read8(0x0400_0208), 0);
}
