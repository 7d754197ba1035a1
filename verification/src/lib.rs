//! Core of an 8-bit game-console emulator: a cycle-stepped processor, the
//! shared memory bus that routes every access to the first registered device
//! claiming the address, the cartridge bank-switching logic, and the DMA
//! stall unit.  Every state transition is specified by a mathematical model
//! and the executable code is proved to follow it.

use vstd::prelude::*;

pub mod bits;
pub mod board;
pub mod bus;
pub mod cartridge;
pub mod cpu;
pub mod instr;
pub mod laws;
pub mod mapper;
pub mod nes_file;
pub mod neslog;
pub mod opcode;
pub mod ppu;
pub mod ppu_regs;
pub mod ram;
pub mod status;

verus! {

/// Every boundary violation is reported as an explicit error kind instead of
/// aborting: an unclaimed bus address, an opcode absent from the decode
/// table, an out-of-contract mapper access, or a malformed cartridge header.
#[derive(Clone, Copy, Debug, PartialEq, Eq, Structural)]
pub enum EmuError {
    /// No registered device claims the address.
    UnclaimedAddress { addr: u16 },
    /// The fetched opcode is absent from the decode table.
    UnknownOpcode { opcode: u8 },
    /// The claiming device does not support reads at this address.
    UnsupportedRead { addr: u16 },
    /// The claiming device does not support writes at this address.
    UnsupportedWrite { addr: u16 },
    /// A RAM access fell outside the backing storage.
    RamOutOfBounds { addr: u16 },
    /// A mapper access fell outside every window of its contract.
    MapperAddressOutOfRange { addr: u16 },
    /// The cartridge has no battery-backed save RAM.
    SramAbsent,
    /// Character storage is read-only.
    ChrWriteDenied { addr: u16 },
    /// The video address register left the valid address space.
    PpuAddressOutOfRange { addr: u16 },
    /// The cartridge header does not start with the fixed magic bytes.
    HeaderBadMagic,
    /// The cartridge header declares zero program banks.
    HeaderNoPrgBanks,
    /// The cartridge header declares zero character banks.
    HeaderNoChrBanks,
    /// The cartridge image is shorter than its header declares.
    HeaderTruncated,
    /// The cartridge has no trainer block.
    TrainerAbsent,
    /// The header names a mapper variant this core does not provide.
    UnsupportedMapper { id: u8 },
    /// A framebuffer access fell outside the visible area or colour range.
    PixelOutOfRange { x: u8, y: u8, color_idx: u8 },
}

} // verus!
