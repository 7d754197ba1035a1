use nes_core::cartridge::{CartridgeImpl, Mirroring};
use nes_core::mapper::{get_mapper_by_id, Mapper0, Mapper2};
use nes_core::nes_file::NESFile;
use nes_core::ram::RamImpl;
use nes_core::EmuError;

fn image(prg_banks: u8, chr_banks: u8, flags6: u8, flags7: u8) -> Vec<u8> {
    let mut bytes = vec![0x4Eu8, 0x45, 0x53, 0x1A, prg_banks, chr_banks, flags6, flags7];
    bytes.extend(std::iter::repeat(0u8).take(8));
    for bank in 0..prg_banks {
        let mut prg = vec![0u8; 0x4000];
        prg[0] = bank; // first byte names the bank
        bytes.extend(prg);
    }
    for bank in 0..chr_banks {
        let mut chr = vec![0u8; 0x2000];
        chr[0] = 0x40 + bank;
        bytes.extend(chr);
    }
    bytes
}

#[test]
fn test_header_fields() {
    // Bit 0: vertical mirroring; bit 1: battery; bit 2: trainer.
    let mut bytes = image(2, 1, 0b0000_0011, 0x20);
    // Insert a trainer block after the header.
    let trainer = vec![0x55u8; 0x200];
    let mut with_trainer = image(2, 1, 0b0000_0111, 0x20);
    with_trainer.splice(16..16, trainer.iter().cloned());
    let nes = NESFile::new(with_trainer).unwrap();
    let h = nes.header();
    assert_eq!(h.prg_banks, 2);
    assert_eq!(h.chr_banks, 1);
    assert_eq!(h.mirroring, Mirroring::Vertical);
    assert!(h.has_battery_backed);
    assert!(h.has_trainer);
    assert_eq!(h.mapper_id, 2);
    assert_eq!(nes.trainer_rom().unwrap(), vec![0x55u8; 0x200]);
    assert_eq!(nes.prg_rom().len(), 0x8000);
    assert_eq!(nes.chr_rom().len(), 0x2000);
    assert_eq!(nes.prg_rom()[0], 0);
    assert_eq!(nes.prg_rom()[0x4000], 1);
    assert_eq!(nes.chr_rom()[0], 0x40);

    bytes[6] = 0b0000_1000;
    let nes = NESFile::new(bytes).unwrap();
    assert_eq!(nes.header().mirroring, Mirroring::FourScreen);
}

#[test]
fn test_header_errors() {
    assert!(matches!(NESFile::new(vec![0; 4]), Err(EmuError::HeaderTruncated)));
    let mut bad_magic = image(1, 1, 0, 0);
    bad_magic[0] = 0x4D;
    assert!(matches!(NESFile::new(bad_magic), Err(EmuError::HeaderBadMagic)));
    assert!(matches!(NESFile::new(image(0, 1, 0, 0)), Err(EmuError::HeaderNoPrgBanks)));
    assert!(matches!(NESFile::new(image(1, 0, 0, 0)), Err(EmuError::HeaderNoChrBanks)));
    let mut short = image(1, 1, 0, 0);
    short.truncate(100);
    assert!(matches!(NESFile::new(short), Err(EmuError::HeaderTruncated)));
    let no_trainer = image(1, 1, 0, 0);
    let nes = NESFile::new(no_trainer).unwrap();
    assert!(matches!(nes.trainer_rom(), Err(EmuError::TrainerAbsent)));
}

#[test]
fn test_unsupported_mapper() {
    // High nibble of the second flags byte = 1 selects mapper 1.
    let nes = NESFile::new(image(1, 1, 0, 0x10)).unwrap();
    assert_eq!(nes.header().mapper_id, 1);
    assert!(matches!(
        CartridgeImpl::new(nes),
        Err(EmuError::UnsupportedMapper { id: 1 })
    ));
}

#[test]
fn test_mapper0_windows() {
    // One bank: the high window mirrors the low one.
    let nes = NESFile::new(image(1, 1, 0, 0)).unwrap();
    let cart = CartridgeImpl::new(nes).unwrap();
    assert_eq!(cart.cpu_read(0x8000).unwrap(), 0);
    assert_eq!(cart.cpu_read(0xC000).unwrap(), 0);
    assert_eq!(cart.ppu_read(0x0000).unwrap(), 0x40);

    // Two banks: the high window is the second bank.
    let nes = NESFile::new(image(2, 1, 0, 0)).unwrap();
    let cart = CartridgeImpl::new(nes).unwrap();
    assert_eq!(cart.cpu_read(0x8000).unwrap(), 0);
    assert_eq!(cart.cpu_read(0xC000).unwrap(), 1);
}

#[test]
fn test_mapper0_errors() {
    let nes = NESFile::new(image(1, 1, 0, 0)).unwrap();
    let mut cart = CartridgeImpl::new(nes).unwrap();
    assert_eq!(
        cart.cpu_read(0x5000),
        Err(EmuError::MapperAddressOutOfRange { addr: 0x5000 })
    );
    assert_eq!(cart.cpu_read(0x6000), Err(EmuError::SramAbsent));
    assert_eq!(cart.ppu_write(0x0100, 1), Err(EmuError::ChrWriteDenied { addr: 0x0100 }));
}

#[test]
fn test_mapper0_sram() {
    // Battery bit set: 8KB of save RAM at 0x6000.
    let nes = NESFile::new(image(1, 1, 0b0000_0010, 0)).unwrap();
    let mut cart = CartridgeImpl::new(nes).unwrap();
    assert_eq!(cart.cpu_read(0x6123).unwrap(), 0);
    cart.cpu_write(0x6123, 0x99).unwrap();
    assert_eq!(cart.cpu_read(0x6123).unwrap(), 0x99);
}

/// The bank-switched mapper: with 8 program banks, writing 10 into the
/// select window selects bank 10 mod 8 = 2 for the low window, while the
/// high window always reads the last bank, whatever was selected.
#[test]
fn test_mapper2_bank_select() {
    let nes = NESFile::new(image(8, 1, 0, 0x20)).unwrap();
    let mut cart = CartridgeImpl::new(nes).unwrap();
    assert_eq!(cart.cpu_read(0x8000).unwrap(), 0);
    assert_eq!(cart.cpu_read(0xC000).unwrap(), 7);
    cart.cpu_write(0x8000, 10).unwrap();
    assert_eq!(cart.cpu_read(0x8000).unwrap(), 2);
    assert_eq!(cart.cpu_read(0xC000).unwrap(), 7);
    cart.cpu_write(0xFFFF, 5).unwrap();
    assert_eq!(cart.cpu_read(0x8000).unwrap(), 5);
    assert_eq!(cart.cpu_read(0xC000).unwrap(), 7);
}

#[test]
fn test_mapper2_ppu_space() {
    let nes = NESFile::new(image(8, 1, 0, 0x20)).unwrap();
    let mut cart = CartridgeImpl::new(nes).unwrap();
    assert_eq!(cart.ppu_read(0x0000).unwrap(), 0x40);
    assert_eq!(
        cart.ppu_read(0x2000),
        Err(EmuError::MapperAddressOutOfRange { addr: 0x2000 })
    );
    assert_eq!(cart.ppu_write(0x0000, 1), Err(EmuError::ChrWriteDenied { addr: 0x0000 }));
}

#[test]
fn test_get_mapper_by_id() {
    let m = get_mapper_by_id(0, 1, vec![0; 0x2000], vec![0; 0x4000], None);
    assert!(m.is_ok());
    let m = get_mapper_by_id(2, 2, vec![0; 0x2000], vec![0; 0x8000], None);
    assert!(m.is_ok());
    let m = get_mapper_by_id(7, 1, vec![0; 0x2000], vec![0; 0x4000], None);
    assert!(matches!(m, Err(EmuError::UnsupportedMapper { id: 7 })));
}

#[test]
fn test_mapper_structs_direct() {
    let m0 = Mapper0::new(1, vec![0x11; 0x2000], vec![0x22; 0x4000], Some(RamImpl::new(0x2000)));
    assert_eq!(m0.read(0x0000).unwrap(), 0x11);
    assert_eq!(m0.read(0x8000).unwrap(), 0x22);
    let m2 = Mapper2::new(2, vec![0x11; 0x2000], vec![0x22; 0x8000], None);
    assert_eq!(m2.read(0xC000).unwrap(), 0x22);
    assert_eq!(m2.ppu_read(0x0001).unwrap(), 0x11);
}
