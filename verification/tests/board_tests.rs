use nes_core::board::BoardImpl;
use nes_core::bus::{BusDevice, BusImpl, RAMAdapterForCPUBus};
use nes_core::cartridge::CartridgeImpl;
use nes_core::cpu::Interrupt;
use nes_core::nes_file::NESFile;
use nes_core::ram::RamImpl;
use nes_core::EmuError;

fn nes_image_with_vectors(nmi: u16, reset: u16, irq: u16) -> Vec<u8> {
    let mut bytes = vec![0x4Eu8, 0x45, 0x53, 0x1A, 1, 1, 0, 0, 0, 0, 0, 0, 0, 0, 0, 0];
    let mut prg = vec![0u8; 0x4000];
    // With one program bank, 0xFFFA..0xFFFF fold onto the bank's tail.
    prg[0x3FFA] = (nmi & 0xFF) as u8;
    prg[0x3FFB] = (nmi >> 8) as u8;
    prg[0x3FFC] = (reset & 0xFF) as u8;
    prg[0x3FFD] = (reset >> 8) as u8;
    prg[0x3FFE] = (irq & 0xFF) as u8;
    prg[0x3FFF] = (irq >> 8) as u8;
    bytes.extend(prg);
    bytes.extend(std::iter::repeat(0u8).take(0x2000));
    bytes
}

fn board_with_vectors(nmi: u16, reset: u16, irq: u16) -> BoardImpl {
    let nes = NESFile::new(nes_image_with_vectors(nmi, reset, irq)).unwrap();
    let cartridge = CartridgeImpl::new(nes).unwrap();
    BoardImpl::new(cartridge).init().unwrap()
}

/// Reset loads the entry point from the reset vector and owes seven
/// cycles; the power-on registers are restored.
#[test]
fn test_reset_vector_and_state() {
    let board = board_with_vectors(0x8100, 0xC123, 0x8200);
    let s = board.dump_state();
    assert_eq!(s.reg_pc, 0xC123);
    assert_eq!(s.reg_sp, 0xFD);
    assert_eq!(s.remaining_cycles, 7);
    assert_eq!(s.total_cycles, 7);
    assert_eq!(s.reg_status.to_bits(), 0x24);
}

/// A DMA trigger at an even total-cycle count costs exactly 513 cycles; at
/// an odd count, exactly 514.
#[test]
fn test_dma_cycle_cost_parity() {
    let mut board = board_with_vectors(0, 0xC000, 0);
    board.set_reg_pc(0xC000);
    board.cpu.total_cycles = 100;
    board.cpu_bus_write(0x4014, 0x02).unwrap();
    assert_eq!(board.dump_state().remaining_cycles, 513);

    let mut board = board_with_vectors(0, 0xC000, 0);
    board.set_reg_pc(0xC000);
    board.cpu.total_cycles = 101;
    board.cpu_bus_write(0x4014, 0x02).unwrap();
    assert_eq!(board.dump_state().remaining_cycles, 514);
}

/// The DMA transfer copies the named page through the object-attribute
/// port one byte at a time: the port's latch ends on the page's last byte
/// and the descriptor address wraps back to where it started.
#[test]
fn test_dma_copies_through_oam_port() {
    let mut board = board_with_vectors(0, 0xC000, 0);
    board.set_reg_pc(0xC000);
    for i in 0..256u16 {
        board.cpu_bus_write(0x0200 + i, (i & 0xFF) as u8).unwrap();
    }
    board.cpu_bus_write(0x4014, 0x02).unwrap();
    assert_eq!(board.ppu.read_reg_oam_data(), 0xFF);
    assert_eq!(board.ppu.reg_oam_address, 0x00);
}

/// Servicing a non-maskable interrupt pushes the program counter and the
/// status byte (break and unused forced on), disables interrupts, loads
/// the handler address and owes seven cycles.
#[test]
fn test_nmi_service() {
    let mut board = board_with_vectors(0x8123, 0xC000, 0);
    board.set_reg_pc(0xC055);
    board.trigger_interrupt(Interrupt::Nmi);
    board.clock().unwrap();
    let s = board.dump_state();
    assert_eq!(s.reg_pc, 0x8123);
    assert_eq!(s.remaining_cycles, 7);
    assert_eq!(s.reg_sp, 0xFA);
    assert_eq!(board.cpu_bus_read(0x01FD).unwrap(), 0xC0);
    assert_eq!(board.cpu_bus_read(0x01FC).unwrap(), 0x55);
    assert_eq!(board.cpu_bus_read(0x01FB).unwrap(), 0x24 | 0x30);
    assert!(s.reg_status.interrupt_disable);
}

/// A second interrupt request arriving while one is pending is dropped:
/// after the pending one is serviced, no other is taken.
#[test]
fn test_interrupt_latch_drops_second() {
    let mut board = board_with_vectors(0x8123, 0xC000, 0x9456);
    board.set_reg_pc(0xC000);
    // Clear interrupt-disable so a maskable interrupt would be taken.
    board.cpu.reg_status = 0x20;
    board.trigger_interrupt(Interrupt::Nmi);
    board.trigger_interrupt(Interrupt::Irq); // dropped
    board.clock().unwrap();
    assert_eq!(board.dump_state().reg_pc, 0x8123);
    // Drain the seven owed cycles; no second service may happen.
    for _ in 0..7 {
        board.clock().unwrap();
    }
    assert_eq!(board.dump_state().reg_pc, 0x8123);
    assert_eq!(board.dump_state().remaining_cycles, 0);
}

/// The maskable interrupt is suppressed while interrupt-disable is set:
/// the latch is consumed with no visible effect.
#[test]
fn test_irq_suppressed_by_flag() {
    let mut board = board_with_vectors(0, 0xC000, 0x9456);
    board.set_reg_pc(0xC0AA);
    assert!(board.dump_state().reg_status.interrupt_disable);
    board.trigger_interrupt(Interrupt::Irq);
    board.clock().unwrap();
    assert_eq!(board.dump_state().reg_pc, 0xC0AA);
    assert_eq!(board.dump_state().remaining_cycles, 0);
}

/// While cycle debt is owed, a step only drains one cycle and advances the
/// total count; registers and memory stay as they are.
#[test]
fn test_cycle_debt_priority() {
    let mut board = board_with_vectors(0, 0xC000, 0);
    let before = board.dump_state();
    assert_eq!(before.remaining_cycles, 7);
    board.clock().unwrap();
    let after = board.dump_state();
    assert_eq!(after.remaining_cycles, 6);
    assert_eq!(after.total_cycles, before.total_cycles + 1);
    assert_eq!(after.reg_pc, before.reg_pc);
}

/// An opcode absent from the table is a fatal decode error with the
/// offending byte named.
#[test]
fn test_unknown_opcode_is_fatal() {
    let mut board = board_with_vectors(0, 0xC000, 0);
    board.set_reg_pc(0xC000);
    board.cpu_bus_write(0xC000, 0x02).unwrap();
    assert_eq!(board.clock(), Err(EmuError::UnknownOpcode { opcode: 0x02 }));
}

/// An address no device claims is a fatal bus fault, never an open-bus
/// value.
#[test]
fn test_unclaimed_address_is_fatal() {
    let mut board = board_with_vectors(0, 0xC000, 0);
    assert_eq!(
        board.cpu_bus_read(0x4018),
        Err(EmuError::UnclaimedAddress { addr: 0x4018 })
    );
    assert_eq!(
        board.cpu_bus_write(0x4019, 1),
        Err(EmuError::UnclaimedAddress { addr: 0x4019 })
    );
}

/// Reading the DMA trigger port is not supported.
#[test]
fn test_dma_port_read_is_fatal() {
    let mut board = board_with_vectors(0, 0xC000, 0);
    assert_eq!(
        board.cpu_bus_read(0x4014),
        Err(EmuError::UnsupportedRead { addr: 0x4014 })
    );
}

/// Work RAM is mirrored every 0x800 bytes below 0x2000.
#[test]
fn test_work_ram_mirroring() {
    let mut board = board_with_vectors(0, 0xC000, 0);
    board.cpu_bus_write(0x0005, 0xAB).unwrap();
    assert_eq!(board.cpu_bus_read(0x0805).unwrap(), 0xAB);
    assert_eq!(board.cpu_bus_read(0x1005).unwrap(), 0xAB);
    assert_eq!(board.cpu_bus_read(0x1805).unwrap(), 0xAB);
}

/// Dispatch is first-match-wins over registration order: with two devices
/// claiming the same address, the one registered first takes every read
/// and write, and the later one is never touched.
#[test]
fn test_bus_dispatch_order() {
    let mut bus = BusImpl::new();
    let mut first = RamImpl::new(0x800);
    first.write(5, 0xAA).unwrap();
    let mut second = RamImpl::new(0x800);
    second.write(5, 0xBB).unwrap();
    bus.register_device(BusDevice::Ram(RAMAdapterForCPUBus { ram: first }));
    bus.register_device(BusDevice::Ram(RAMAdapterForCPUBus { ram: second }));

    assert_eq!(bus.read(5), Ok(0xAA));
    bus.write(5, 0x77).unwrap();
    assert_eq!(bus.read(5), Ok(0x77));
    // The later device still holds its own byte, untouched.
    assert_eq!(bus.local_read(1, 5), Ok(0xBB));
}

/// A 16-bit write is two sequential 8-bit writes: low byte first, then
/// the high byte at the next address.
#[test]
fn test_sixteen_bit_write_order() {
    let mut board = board_with_vectors(0, 0xC000, 0);
    board.cpu_bus_write_u16(0x0010, 0xABCD).unwrap();
    assert_eq!(board.cpu_bus_read(0x0010).unwrap(), 0xCD);
    assert_eq!(board.cpu_bus_read(0x0011).unwrap(), 0xAB);
    assert_eq!(board.cpu_bus_read_u16(0x0010).unwrap(), 0xABCD);
}

/// A 16-bit read is two sequential 8-bit reads, low byte first: reading a
/// word over the status port consumes the flag with the first byte.
#[test]
fn test_sixteen_bit_read_not_fused() {
    let mut board = board_with_vectors(0, 0xC000, 0);
    board.ppu.reg_ppu_status.vblank = true;
    // 0x2002 is the status port; 0x2003 maps to a write-only port, so the
    // high-byte read faults -- after the low byte already cleared vblank.
    let r = board.cpu_bus_read_u16(0x2002);
    assert_eq!(r, Err(EmuError::UnsupportedRead { addr: 0x2003 }));
    assert!(!board.ppu.reg_ppu_status.vblank);
}
