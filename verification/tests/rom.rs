use rnes::cartridge::Mirroring;
use rnes::ines::{load_image, parse_header, Header, RomError};
use rnes::mapper::Mapper;
use rnes::mem::MemState;
use rnes::nes::Nes;

/// An image with `prg` pages of program, `chr` pages of patterns and the
/// two flag bytes given. Each byte of the program is its own offset's low
/// byte, each byte of the patterns the complement of that.
fn image(prg: u8, chr: u8, flags6: u8, flags7: u8) -> Vec<u8> {
    let mut image = vec![0x4e, 0x45, 0x53, 0x1a, prg, chr, flags6, flags7];
    image.resize(16, 0);
    if flags6 & 0x04 != 0 {
        image.resize(16 + 512, 0xee);
    }
    for i in 0..prg as usize * 0x4000 {
        image.push(i as u8);
    }
    for i in 0..chr as usize * 0x2000 {
        image.push(!(i as u8));
    }
    image
}

#[test]
fn header_fields() {
    let parsed = parse_header(&image(2, 1, 0x01, 0x00));
    assert_eq!(
        parsed,
        Ok(Header { prg_pages: 2, chr_pages: 1, mapper: 0, mirroring: Mirroring::Vertical, trainer: false })
    );
    let parsed = parse_header(&image(1, 0, 0x14, 0x20));
    assert_eq!(
        parsed,
        Ok(Header { prg_pages: 1, chr_pages: 0, mapper: 0x21, mirroring: Mirroring::Horizontal, trainer: true })
    );
}

#[test]
fn image_without_header_is_refused() {
    assert_eq!(parse_header(&[]), Err(RomError::NoHeader));
    assert_eq!(parse_header(&[0x4e, 0x45, 0x53, 0x1a]), Err(RomError::NoHeader));
    assert_eq!(load_image(&[0u8; 15]).err(), Some(RomError::NoHeader));
}

#[test]
fn image_with_bad_magic_is_refused() {
    let mut bad = image(1, 1, 0, 0);
    bad[3] = 0x1b;
    assert_eq!(parse_header(&bad), Err(RomError::BadMagic));
    assert_eq!(load_image(&bad).err(), Some(RomError::BadMagic));
    let mut bad = image(1, 1, 0, 0);
    bad[0] = b'n';
    assert_eq!(load_image(&bad).err(), Some(RomError::BadMagic));
}

#[test]
fn image_with_mapper_is_refused() {
    assert_eq!(load_image(&image(1, 1, 0x10, 0x00)).err(), Some(RomError::UnsupportedMapper(1)));
    assert_eq!(load_image(&image(1, 1, 0x40, 0x00)).err(), Some(RomError::UnsupportedMapper(4)));
    assert_eq!(load_image(&image(1, 1, 0x00, 0x10)).err(), Some(RomError::UnsupportedMapper(16)));
}

#[test]
fn image_of_wrong_size_is_refused() {
    assert_eq!(load_image(&image(0, 1, 0, 0)).err(), Some(RomError::BadSize));
    assert_eq!(load_image(&image(3, 1, 0, 0)).err(), Some(RomError::BadSize));
    assert_eq!(load_image(&image(1, 2, 0, 0)).err(), Some(RomError::BadSize));
}

#[test]
fn truncated_image_is_refused() {
    let mut short = image(1, 1, 0, 0);
    short.pop();
    assert_eq!(load_image(&short).err(), Some(RomError::Truncated));
    let mut short = image(2, 0, 0x04, 0);
    short.truncate(16 + 512 + 0x7fff);
    assert_eq!(load_image(&short).err(), Some(RomError::Truncated));
    short.push(0);
    assert!(load_image(&short).is_ok());
}

#[test]
fn small_image_is_mirrored() {
    let cart = load_image(&image(1, 1, 0x01, 0)).unwrap();
    assert_eq!(cart.mirroring, Mirroring::Vertical);
    assert!(!cart.chr_ram);
    assert_eq!(cart.prg_load(0x8000), 0x00);
    assert_eq!(cart.prg_load(0x8001), 0x01);
    assert_eq!(cart.prg_load(0xbfff), 0xff);
    assert_eq!(cart.prg_load(0xc001), 0x01);
    assert_eq!(cart.prg_load(0xffff), 0xff);
    assert_eq!(cart.chr_load(0x0000), 0xff);
    assert_eq!(cart.chr_load(0x0001), 0xfe);
    assert_eq!(cart.chr_load(0x1fff), 0x00);
}

#[test]
fn large_image_fills_the_rom() {
    let mut bytes = image(2, 0, 0x00, 0);
    bytes[16 + 0x4000] = 0x77;
    let cart = load_image(&bytes).unwrap();
    assert_eq!(cart.mirroring, Mirroring::Horizontal);
    assert!(cart.chr_ram);
    assert_eq!(cart.prg_load(0x8000), 0x00);
    assert_eq!(cart.prg_load(0xc000), 0x77);
    assert_eq!(cart.chr_load(0x0000), 0x00);
}

#[test]
fn trainer_is_skipped() {
    let cart = load_image(&image(1, 1, 0x04, 0)).unwrap();
    assert_eq!(cart.prg_load(0x8000), 0x00);
    assert_eq!(cart.prg_load(0x8005), 0x05);
    assert_eq!(cart.chr_load(0x0002), 0xfd);
}

#[test]
fn loaded_cartridge_boots() {
    let mut bytes = image(1, 0, 0, 0);
    // LDA #$42 at $8000, and the reset vector.
    bytes[16] = 0xa9;
    bytes[17] = 0x42;
    bytes[16 + 0x3ffc] = 0x00;
    bytes[16 + 0x3ffd] = 0x80;
    let mut nes = Nes::new(load_image(&bytes).unwrap());
    assert!(nes.is_valid());
    nes.reset();
    assert_eq!(nes.cpu.pc, 0x8000);
    nes.cycle(0);
    assert_eq!(nes.cpu.a, 0x42);
    assert!(nes.is_valid());
}

#[test]
fn register_names() {
    assert_eq!(MemState::PpuCtrl.name(), "PpuCtrl");
    assert_eq!(MemState::PpuMask.name(), "PpuMask");
    assert_eq!(MemState::PpuStatus.name(), "PpuStatus");
    assert_eq!(MemState::OamAddr.name(), "OamAddr");
    assert_eq!(MemState::OamData.name(), "OamData");
    assert_eq!(MemState::PpuScroll.name(), "PpuScroll");
    assert_eq!(MemState::PpuAddr.name(), "PpuAddr");
    assert_eq!(MemState::PpuData.name(), "PpuData");
    assert_eq!(MemState::OamDma.name(), "OamDma");
    assert_eq!(MemState::NoState.name(), "NoState");
}

#[test]
fn a_broken_console_is_not_valid() {
    let mut nes = Nes::new(load_image(&image(1, 0, 0, 0)).unwrap());
    nes.ppu.scycle = 341;
    assert!(!nes.is_valid());
    nes.ppu.scycle = 340;
    assert!(nes.is_valid());
    nes.ppu.palette[31] = 0x40;
    assert!(!nes.is_valid());
    nes.ppu.palette[31] = 0x3f;
    nes.ppu.address.v = 0x8000;
    assert!(!nes.is_valid());
    nes.ppu.address.v = 0x7fff;
    nes.ppu.oam.count = 9;
    assert!(!nes.is_valid());
}
