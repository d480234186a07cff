use gba_bus::bus::Bus;
use gba_bus::decoder::{decode, Region};
use gba_bus::mem::{LoadError, Memory};
use gba_bus::ppu::Ppu;

#[test]
fn bus_new_rejects_wrong_bios_size() {
    assert_eq!(Bus::new(vec![0u8; 0x3FFF], vec![0u8; 4]).err(), Some(LoadError::BiosSize));
    assert_eq!(Bus::new(vec![], vec![0u8; 4]).err(), Some(LoadError::BiosSize));
    assert_eq!(Bus::new(vec![0u8; 0x4001], vec![0u8; 4]).err(), Some(LoadError::BiosSize));
}

#[test]
fn bus_new_rejects_oversized_cartridge() {
    let r = Bus::new(vec![0u8; 0x4000], vec![0u8; 0x0200_0001]);
    assert_eq!(r.err(), Some(LoadError::CartridgeTooLarge));
}

#[test]
fn bus_new_accepts_a_full_bank_cartridge() {
    assert!(Bus::new(vec![0u8; 0x4000], vec![0u8; 0x0200_0000]).is_ok());
    assert!(Bus::new(vec![0u8; 0x4000], vec![]).is_ok());
}

#[test]
fn memory_new_validates_like_the_bus() {
    assert_eq!(Memory::new(vec![0u8; 1], vec![]).err(), Some(LoadError::BiosSize));
    let m = Memory::new(vec![0u8; 0x4000], vec![1, 2, 3]).unwrap();
    assert_eq!(m.rom, vec![1, 2, 3]);
    assert_eq!(m.ewram.len(), 0x4_0000);
    assert_eq!(m.iwram.len(), 0x8000);
    assert!(!m.ime);
}

#[test]
fn decode_resolves_every_declared_boundary() {
    assert_eq!(decode(0x0000_0000), (Region::Bios, 0));
    assert_eq!(decode(0x0000_3FFF), (Region::Bios, 0x3FFF));
    assert_eq!(decode(0x0000_4000), (Region::Unmapped, 0));
    assert_eq!(decode(0x01FF_FFFF), (Region::Unmapped, 0));
    assert_eq!(decode(0x0200_0000), (Region::ExternalRam, 0));
    assert_eq!(decode(0x0204_0001), (Region::ExternalRam, 1));
    assert_eq!(decode(0x02FF_FFFF), (Region::ExternalRam, 0x3_FFFF));
    assert_eq!(decode(0x0300_0000), (Region::InternalRam, 0));
    assert_eq!(decode(0x0300_8000), (Region::InternalRam, 0));
    assert_eq!(decode(0x03FF_FFFF), (Region::InternalRam, 0x7FFF));
    assert_eq!(decode(0x0400_0000), (Region::Io, 0));
    assert_eq!(decode(0x0400_0208), (Region::Io, 0x208));
    assert_eq!(decode(0x04FF_FFFF), (Region::Io, 0xFF_FFFF));
    assert_eq!(decode(0x0500_0000), (Region::Unmapped, 0));
    assert_eq!(decode(0x07FF_FFFF), (Region::Unmapped, 0));
    assert_eq!(decode(0x0800_0000), (Region::CartridgeRom, 0));
    assert_eq!(decode(0x0A00_0000), (Region::CartridgeRom, 0));
    assert_eq!(decode(0x0DFF_FFFF), (Region::CartridgeRom, 0x01FF_FFFF));
    assert_eq!(decode(0x0E00_0000), (Region::Unmapped, 0));
    assert_eq!(decode(0xFFFF_FFFF), (Region::Unmapped, 0));
}

#[test]
fn ppu_register_bytes_read_and_write_little_endian() {
    let mut ppu = Ppu::new();
    assert_eq!(ppu.read_register(0), 0);
    ppu.write_register(0, 0x34);
    ppu.write_register(1, 0x12);
    assert_eq!(ppu.dispcnt, 0x0000_1234);
    assert_eq!(ppu.read_register(0), 0x34);
    assert_eq!(ppu.read_register(1), 0x12);
    assert_eq!(ppu.read_register(2), 0);
    // offsets outside the implemented register are tolerated
    ppu.write_register(7, 0xFF);
    assert_eq!(ppu.read_register(7), 0);
    assert_eq!(ppu.dispcnt, 0x0000_1234);
}
