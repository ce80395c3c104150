use umesen_core::{Cartridge, CartridgeHeader, Mirroring, NesParseError};

#[test]
fn parse_correctly() {
    let header = CartridgeHeader::from_nes([
        0x4E, 0x45, 0x53, 0x1A, 0x02, 0x01, 0x31, 0x00, 0x00, 0x00, 0x00, 0x00, 0x00, 0x00, 0x00,
        0x00,
    ])
    .unwrap();

    assert_eq!(
        header,
        CartridgeHeader {
            mapper_id: 3,
            mirroring: Mirroring::Vertical,
            prg_rom_size: 32 * 1024,
            chr_rom_size: 8 * 1024,
            prg_ram_size: 8 * 1024,
            has_trainer: false,
            chr_ram_size: 0,
            is_v2: false
        }
    )
}

#[test]
fn test() {
    let mut prg_rom = vec![0; 16 * 1024];
    prg_rom[2] = 2;
    let chr_rom = vec![0; 4 * 1024];
    let mut catridge = Cartridge::with_rom(0, prg_rom, chr_rom, 2048);
    catridge.cpu_write(0x6000, 2);
    assert_eq!(catridge.cpu_read(0x6000), Some(2));

    assert_eq!(catridge.cpu_read(0x8002), Some(2));
    assert_eq!(catridge.cpu_read(0xc002), Some(2));
}

#[test]
fn bad_magic_is_rejected() {
    let mut data = [0u8; 16];
    data[0] = b'N';
    data[1] = b'E';
    data[2] = b'S';
    let result = CartridgeHeader::from_nes(data);
    assert!(matches!(
        result,
        Err(NesParseError::InvalidMagicNumber([b'N', b'E', b'S', 0]))
    ));
}

#[test]
fn version_two_sizes() {
    let header = CartridgeHeader::from_nes([
        0x4E, 0x45, 0x53, 0x1A, 0x01, 0x00, 0x05, 0x08, 0x00, 0x00, 0x07, 0x03, 0x00, 0x00, 0x00,
        0x00,
    ])
    .unwrap();
    assert!(header.is_v2);
    assert!(header.has_trainer);
    assert_eq!(header.mirroring, Mirroring::Vertical);
    assert_eq!(header.prg_ram_size, 64 << 7);
    assert_eq!(header.chr_ram_size, 64 << 3);
    assert_eq!(header.chr_rom_size, 0);
    assert_eq!(header.total_size(), 16 + 512 + 16 * 1024);
}

#[test]
fn version_one_defaults() {
    let header = CartridgeHeader::from_nes([
        0x4E, 0x45, 0x53, 0x1A, 0x01, 0x00, 0x00, 0xD0, 0x00, 0x00, 0x00, 0x00, 0x00, 0x00, 0x00,
        0x00,
    ])
    .unwrap();
    assert!(!header.is_v2);
    assert_eq!(header.mapper_id, 0xD0);
    assert_eq!(header.prg_ram_size, 8 * 1024);
    assert_eq!(header.chr_ram_size, 8 * 1024);
    assert_eq!(header.mirroring, Mirroring::Horizontal);
}

#[test]
fn header_round_trip() {
    let data = [
        0x4E, 0x45, 0x53, 0x1A, 0x02, 0x01, 0x31, 0x00, 0x03, 0x00, 0x00, 0x00, 0x00, 0x00, 0x00,
        0x00,
    ];
    let header = CartridgeHeader::from_nes(data).unwrap();
    let again = CartridgeHeader::from_nes(header.to_nes()).unwrap();
    assert_eq!(header, again);
    assert_eq!(again.prg_ram_size, 3 * 8 * 1024);
}

fn image(mapper_low: u8, prg_units: u8) -> Vec<u8> {
    let mut bytes = vec![0x4E, 0x45, 0x53, 0x1A, prg_units, 1, mapper_low << 4, 0];
    bytes.resize(16, 0);
    for i in 0..(prg_units as usize * 16 * 1024 + 8 * 1024) {
        bytes.push((i % 251) as u8);
    }
    bytes
}

#[test]
fn image_loads() {
    let cartridge = Cartridge::from_nes(&image(0, 1)).unwrap();
    assert_eq!(cartridge.header().prg_rom_size, 16 * 1024);
    assert_eq!(cartridge.cpu_read(0x8000), Some(0));
    assert_eq!(cartridge.cpu_read(0x8005), Some(5));
    assert_eq!(cartridge.cpu_read(0xc005), Some(5));
    assert_eq!(cartridge.ppu_read(0x0000), (16 * 1024 % 251) as u8);
    assert_eq!(cartridge.cpu_read(0x5000), None);
}

#[test]
fn short_image_is_rejected() {
    let mut bytes = image(0, 1);
    bytes.truncate(100);
    assert!(matches!(
        Cartridge::from_nes(&bytes),
        Err(NesParseError::NotEnough(_))
    ));
    assert!(matches!(
        Cartridge::from_nes(&bytes[..10]),
        Err(NesParseError::NotEnough(16))
    ));
}

#[test]
fn unsupported_mapper_is_rejected() {
    assert!(matches!(
        Cartridge::from_nes(&image(1, 1)),
        Err(NesParseError::UnsupportedMapper(1))
    ));
}

#[test]
fn chr_ram_round_trip() {
    let mut cartridge = Cartridge::from_nes(&{
        let mut bytes = vec![0x4E, 0x45, 0x53, 0x1A, 1, 0, 0, 0];
        bytes.resize(16 + 16 * 1024, 0);
        bytes
    })
    .unwrap();
    cartridge.ppu_write(0x0123, 0x77);
    assert_eq!(cartridge.ppu_read(0x0123), 0x77);
}
