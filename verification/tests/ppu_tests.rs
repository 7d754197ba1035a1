use nes_core::board::BoardImpl;
use nes_core::bus::NameTablesAdapterForPpuBus;
use nes_core::cartridge::{CartridgeImpl, Mirroring};
use nes_core::nes_file::NESFile;
use nes_core::ppu::{FrameBuffer, OAM};
use nes_core::ppu_regs::{PpuAddressRegister, PpuControlRegister};
use nes_core::ram::RamImpl;
use nes_core::EmuError;

fn new_board() -> BoardImpl {
    let mut bytes = vec![0x4Eu8, 0x45, 0x53, 0x1A, 1, 1, 0, 0, 0, 0, 0, 0, 0, 0, 0, 0];
    bytes.extend(std::iter::repeat(0u8).take(0x4000));
    bytes.extend(std::iter::repeat(0u8).take(0x2000));
    let nes = NESFile::new(bytes).unwrap();
    let cartridge = CartridgeImpl::new(nes).unwrap();
    BoardImpl::new(cartridge).init().unwrap()
}

#[test]
fn test_control_register_decode() {
    let c = PpuControlRegister::from_bits(0b1010_0110);
    assert_eq!(c.nametable_address, 2);
    assert!(c.vram_increment);
    assert!(!c.sprite_pattern_table_address);
    assert!(!c.background_pattern_table_address);
    assert!(c.sprite_size);
    assert!(!c.master_slave_mode);
    assert!(c.nmi_enable);
    assert_eq!(c.nametable_address_in_ppu_bus(), 0x2800);
    assert_eq!(c.vram_increment_value(), 32);
    assert_eq!(c.sprite_size_in_pixels(), 16);
    assert_eq!(c.sprite_pattern_table_address_in_ppu_bus(), 0x0000);
    assert_eq!(c.background_pattern_table_address_in_ppu_bus(), 0x0000);
}

#[test]
fn test_address_register_latch() {
    let mut a = PpuAddressRegister::default();
    a.reset_latch();
    a.update(0x21).unwrap();
    a.update(0x08).unwrap();
    assert_eq!(a.get(), 0x2108);
    a.increment(32).unwrap();
    assert_eq!(a.get(), 0x2128);
    // Low-byte wrap carries into the high byte.
    a.set(0x21FF);
    a.increment(1).unwrap();
    assert_eq!(a.get(), 0x2200);
}

#[test]
fn test_address_register_out_of_range() {
    let mut a = PpuAddressRegister::default();
    a.reset_latch();
    assert_eq!(
        a.update(0x40),
        Err(EmuError::PpuAddressOutOfRange { addr: 0x4000 })
    );
    let mut a = PpuAddressRegister::default();
    a.set(0x3FFF);
    assert_eq!(
        a.increment(1),
        Err(EmuError::PpuAddressOutOfRange { addr: 0x4000 })
    );
}

#[test]
fn test_status_read_clears_vblank_and_latches() {
    let mut board = new_board();
    board.ppu.reg_ppu_status.vblank = true;
    let v = board.cpu_bus_read(0x2002).unwrap();
    assert_eq!(v, 0x80);
    let v = board.cpu_bus_read(0x2002).unwrap();
    assert_eq!(v, 0x00);
}

#[test]
fn test_register_ports_mirrored_every_eight() {
    let mut board = new_board();
    board.ppu.reg_ppu_status.vblank = true;
    // 0x3FFA folds onto the status port.
    let v = board.cpu_bus_read(0x3FFA).unwrap();
    assert_eq!(v, 0x80);
}

#[test]
fn test_data_port_reads_nametable_ram() {
    let mut board = new_board();
    // Point the address latch at 0x2108 and write, then read back.
    board.cpu_bus_read(0x2002).unwrap(); // reset the latch
    board.cpu_bus_write(0x2006, 0x21).unwrap();
    board.cpu_bus_write(0x2006, 0x08).unwrap();
    board.cpu_bus_write(0x2007, 0x5A).unwrap();
    board.cpu_bus_read(0x2002).unwrap();
    board.cpu_bus_write(0x2006, 0x21).unwrap();
    board.cpu_bus_write(0x2006, 0x08).unwrap();
    assert_eq!(board.cpu_bus_read(0x2007).unwrap(), 0x5A);
}

#[test]
fn test_vblank_raised_on_scanline_241() {
    let mut board = new_board();
    board.ppu.cycle = 0;
    board.ppu.scanline = 0;
    // One scanline is 341 dots, 262 scanlines per frame.
    for _ in 0..(341 * 241 + 1) {
        board.ppu.clock();
    }
    assert!(board.ppu.reg_ppu_status.vblank);
    assert!(!board.ppu.check_nmi_interrupt()); // interrupt enable is off
}

#[test]
fn test_nametable_mirroring_folds() {
    let horizontal = NameTablesAdapterForPpuBus {
        vram: RamImpl::new(0x1000),
        mirroring: Mirroring::Horizontal,
    };
    // Tables 0 and 2 fold together, 1 and 3 fold together.
    assert_eq!(horizontal.mirror_address(0x2005), 0x0005);
    assert_eq!(horizontal.mirror_address(0x2805), 0x0005);
    assert_eq!(horizontal.mirror_address(0x2405), 0x0405);
    assert_eq!(horizontal.mirror_address(0x2C05), 0x0405);
    // The 0x3000 region mirrors the 0x2000 region.
    assert_eq!(horizontal.mirror_address(0x3005), 0x0005);

    let vertical = NameTablesAdapterForPpuBus {
        vram: RamImpl::new(0x1000),
        mirroring: Mirroring::Vertical,
    };
    assert_eq!(vertical.mirror_address(0x2005), 0x0005);
    assert_eq!(vertical.mirror_address(0x2405), 0x0005);
    assert_eq!(vertical.mirror_address(0x2805), 0x0405);
    assert_eq!(vertical.mirror_address(0x2C05), 0x0405);

    let single = NameTablesAdapterForPpuBus {
        vram: RamImpl::new(0x1000),
        mirroring: Mirroring::SingleScreen,
    };
    assert_eq!(single.mirror_address(0x2C05), 0x0005);

    let four = NameTablesAdapterForPpuBus {
        vram: RamImpl::new(0x1000),
        mirroring: Mirroring::FourScreen,
    };
    assert_eq!(four.mirror_address(0x2C05), 0x0C05);
}

#[test]
fn test_oam_sprite_decode() {
    let mut oam = OAM::new();
    // Sprite 1: y, tile, attributes, x.
    oam.data.write(4, 0x30).unwrap();
    oam.data.write(5, 0x42).unwrap();
    oam.data.write(6, 0b1110_0011).unwrap();
    oam.data.write(7, 0x40).unwrap();
    let s = oam.get_sprite_8x8(1);
    assert_eq!(s.position_y, 0x30);
    assert_eq!(s.position_x, 0x40);
    assert_eq!(s.palette_id, 0x03);
    assert!(s.behind_background);
    assert!(s.flip_horizontally);
    assert!(s.flip_vertically);
    assert_eq!(s.pattern_table_address, 0x42 * 16);

    let s = oam.get_sprite_8x16(1);
    // Even tile byte: the first pattern table, double-height tiles.
    assert_eq!(s.pattern_table_address, (0x42 >> 1) * 32);

    // An odd tile byte selects the second pattern table.
    oam.data.write(5, 0x43).unwrap();
    let s = oam.get_sprite_8x16(1);
    assert_eq!(s.pattern_table_address, 0x1000 + (0x43 >> 1) * 32);
}

#[test]
fn test_framebuffer_pixels() {
    let mut fb = FrameBuffer::new();
    fb.set_pixel(10, 20, 0x1A).unwrap();
    assert_eq!(fb.get_pixel(10, 20).unwrap(), 0x1A);
    // Only the low five bits are stored.
    fb.set_pixel(10, 20, 0x3F).unwrap();
    assert_eq!(fb.get_pixel(10, 20).unwrap(), 0x1F);
    assert!(fb.set_pixel(0, 240, 0).is_err());
    assert!(fb.set_pixel(0, 0, 64).is_err());
    assert!(fb.get_pixel(0, 240).is_err());
}

#[test]
fn test_oam_port_write_advances_address() {
    let mut board = new_board();
    board.cpu_bus_write(0x2003, 0x10).unwrap();
    board.cpu_bus_write(0x2004, 0x77).unwrap();
    assert_eq!(board.ppu.reg_oam_address, 0x11);
    assert_eq!(board.cpu_bus_read(0x2004).unwrap(), 0x77);
}
