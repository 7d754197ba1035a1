//! The board: the single owner of the processor, the two buses, the video
//! unit and the cartridge.  All cross-device traffic is dispatched here, so
//! at most one mutator is ever active per device, and every transition
//! refines the mathematical step model.

use vstd::prelude::*;

use crate::bits::{pack_u16, spec_pack_u16};
use crate::bus::{
    lemma_find_claim_found, spec_device_claims, spec_find_claim, spec_local_read,
    spec_local_write, BusDevice, BusImpl, DeviceV,
};
use crate::cartridge::{cart_wf, CartV, CartridgeImpl};
use crate::cpu::{w_add16, w_add64, w_add8, w_sub16, w_sub8, CPU};
use crate::mapper::{spec_mapper_ppu_read, spec_mapper_ppu_write, spec_mapper_read,
    spec_mapper_write};
use crate::ppu::{ppu_wf, spec_ppu_read_status, spec_ppu_write_control, spec_ppu_write_oam_data,
    PpuImpl, PpuV};
use crate::ppu_regs::{spec_addr_get, spec_addr_increment, spec_addr_update, spec_mask_from_bits,
    spec_scroll_write};
use crate::EmuError;

verus! {

/// Mathematical state of the whole board.
#[verifier::ext_equal]
pub ghost struct BoardV {
    pub cpu: CPU,
    pub cpu_bus: Seq<DeviceV>,
    pub ppu_bus: Seq<DeviceV>,
    pub ppu: PpuV,
    pub cart: CartV,
}

/// The components' own invariants.
pub open spec fn board_wf(b: BoardV) -> bool {
    &&& cart_wf(b.cart)
    &&& ppu_wf(b.ppu)
}

/// The board.
pub struct BoardImpl {
    pub cpu: CPU,
    pub cpu_bus: BusImpl,
    pub ppu_bus: BusImpl,
    pub ppu: PpuImpl,
    pub cartridge: CartridgeImpl,
}

impl View for BoardImpl {
    type V = BoardV;

    open spec fn view(&self) -> BoardV {
        BoardV {
            cpu: self.cpu,
            cpu_bus: self.cpu_bus@,
            ppu_bus: self.ppu_bus@,
            ppu: self.ppu@,
            cart: self.cartridge@,
        }
    }
}

// ---------------------------------------------------------------------------
// The video bus: pattern tables (cartridge), nametables, palettes, and the
// whole-space mirror above 0x4000.

/// A read on the video bus.
pub open spec fn spec_ppu_bus_read(ppu_bus: Seq<DeviceV>, cart: CartV, addr: u16) -> Result<
    u8,
    EmuError,
>
    decreases addr,
{
    match spec_find_claim(ppu_bus, addr) {
        None => Err(EmuError::UnclaimedAddress { addr }),
        Some(i) => match ppu_bus[i] {
            DeviceV::PatternTables => spec_mapper_ppu_read(cart.mapper, addr),
            DeviceV::MirrorBus => if addr >= 0x4000 {
                spec_ppu_bus_read(ppu_bus, cart, (addr % 0x4000) as u16)
            } else {
                Err(EmuError::UnsupportedRead { addr })
            },
            _ => spec_local_read(ppu_bus[i], addr),
        },
    }
}

/// A write on the video bus.
pub open spec fn spec_ppu_bus_write(ppu_bus: Seq<DeviceV>, cart: CartV, addr: u16, value: u8) -> (
    Seq<DeviceV>,
    CartV,
    Result<(), EmuError>,
)
    decreases addr,
{
    match spec_find_claim(ppu_bus, addr) {
        None => (ppu_bus, cart, Err(EmuError::UnclaimedAddress { addr })),
        Some(i) => match ppu_bus[i] {
            DeviceV::PatternTables => {
                let (m2, r) = spec_mapper_ppu_write(cart.mapper, addr, value);
                (ppu_bus, CartV { mapper: m2, ..cart }, r)
            },
            DeviceV::MirrorBus => if addr >= 0x4000 {
                spec_ppu_bus_write(ppu_bus, cart, (addr % 0x4000) as u16, value)
            } else {
                (ppu_bus, cart, Err(EmuError::UnsupportedWrite { addr }))
            },
            _ => {
                let (d2, r) = spec_local_write(ppu_bus[i], addr, value);
                (ppu_bus.update(i, d2), cart, r)
            },
        },
    }
}

// ---------------------------------------------------------------------------
// The video unit's register ports as the processor bus sees them, folded
// every 8 bytes over 0x2000..0x4000.

/// A read of a register port.  Only status, the object-attribute data latch
/// and the data port are readable.
pub open spec fn spec_ppu_reg_read(b: BoardV, addr: u16) -> (BoardV, Result<u8, EmuError>) {
    let reg = w_sub16(addr, 0x2000) % 8;
    if reg == 2 {
        let (p2, v) = spec_ppu_read_status(b.ppu);
        (BoardV { ppu: p2, ..b }, Ok(v))
    } else if reg == 4 {
        (b, Ok(b.ppu.oam_data))
    } else if reg == 7 {
        let a = spec_addr_get(b.ppu.address);
        match spec_ppu_bus_read(b.ppu_bus, b.cart, a) {
            Err(e) => (b, Err(e)),
            Ok(v) => {
                let inc: u8 = if b.ppu.ctrl.vram_increment {
                    32
                } else {
                    1
                };
                let (a2, r2) = spec_addr_increment(b.ppu.address, inc);
                (
                    BoardV { ppu: PpuV { address: a2, ..b.ppu }, ..b },
                    match r2 {
                        Ok(_) => Ok(v),
                        Err(e) => Err(e),
                    },
                )
            },
        }
    } else {
        (b, Err(EmuError::UnsupportedRead { addr }))
    }
}

/// A write of a register port.  Only the status port is not writable.
pub open spec fn spec_ppu_reg_write(b: BoardV, addr: u16, value: u8) -> (BoardV, Result<
    (),
    EmuError,
>) {
    let reg = w_sub16(addr, 0x2000) % 8;
    if reg == 0 {
        (BoardV { ppu: spec_ppu_write_control(b.ppu, value), ..b }, Ok(()))
    } else if reg == 1 {
        (BoardV { ppu: PpuV { mask: spec_mask_from_bits(value), ..b.ppu }, ..b }, Ok(()))
    } else if reg == 3 {
        (BoardV { ppu: PpuV { oam_address: value, ..b.ppu }, ..b }, Ok(()))
    } else if reg == 4 {
        (BoardV { ppu: spec_ppu_write_oam_data(b.ppu, value), ..b }, Ok(()))
    } else if reg == 5 {
        (BoardV { ppu: PpuV { scroll: spec_scroll_write(b.ppu.scroll, value), ..b.ppu }, ..b }, Ok(()))
    } else if reg == 6 {
        let (a2, r) = spec_addr_update(b.ppu.address, value);
        (BoardV { ppu: PpuV { address: a2, ..b.ppu }, ..b }, r)
    } else if reg == 7 {
        let a = spec_addr_get(b.ppu.address);
        let (pb2, c2, r) = spec_ppu_bus_write(b.ppu_bus, b.cart, a, value);
        let b1 = BoardV { ppu_bus: pb2, cart: c2, ..b };
        match r {
            Err(e) => (b1, Err(e)),
            Ok(_) => {
                let inc: u8 = if b.ppu.ctrl.vram_increment {
                    32
                } else {
                    1
                };
                let (a2, r2) = spec_addr_increment(b.ppu.address, inc);
                (BoardV { ppu: PpuV { address: a2, ..b1.ppu }, ..b1 }, r2)
            },
        }
    } else {
        (b, Err(EmuError::UnsupportedWrite { addr }))
    }
}

// ---------------------------------------------------------------------------
// The processor bus.

/// A read on the processor bus: routed to the first claiming device.
pub open spec fn spec_cpu_bus_read(b: BoardV, addr: u16) -> (BoardV, Result<u8, EmuError>) {
    match spec_find_claim(b.cpu_bus, addr) {
        None => (b, Err(EmuError::UnclaimedAddress { addr })),
        Some(i) => match b.cpu_bus[i] {
            DeviceV::Ppu => spec_ppu_reg_read(b, addr),
            DeviceV::Cartridge => (b, spec_mapper_read(b.cart.mapper, addr)),
            DeviceV::PatternTables => (b, spec_mapper_ppu_read(b.cart.mapper, addr)),
            DeviceV::MirrorBus => (b, Err(EmuError::UnsupportedRead { addr })),
            _ => (b, spec_local_read(b.cpu_bus[i], addr)),
        },
    }
}

/// A 16-bit read: two sequential 8-bit reads, low byte first.  The order is
/// observable, since some ports have read side effects.
pub open spec fn spec_cpu_bus_read_u16(b: BoardV, addr: u16) -> (BoardV, Result<u16, EmuError>) {
    let (b1, r1) = spec_cpu_bus_read(b, addr);
    match r1 {
        Err(e) => (b1, Err(e)),
        Ok(lo) => {
            let (b2, r2) = spec_cpu_bus_read(b1, w_add16(addr, 1));
            match r2 {
                Err(e) => (b2, Err(e)),
                Ok(hi) => (b2, Ok(spec_pack_u16(hi, lo))),
            }
        },
    }
}

/// A write on the processor bus with the DMA trigger inert; the transfer
/// itself writes through this, so its own port cannot re-trigger.
pub open spec fn spec_cpu_bus_write_basic(b: BoardV, addr: u16, value: u8) -> (BoardV, Result<
    (),
    EmuError,
>) {
    match spec_find_claim(b.cpu_bus, addr) {
        None => (b, Err(EmuError::UnclaimedAddress { addr })),
        Some(i) => match b.cpu_bus[i] {
            DeviceV::Ppu => spec_ppu_reg_write(b, addr, value),
            DeviceV::Cartridge => {
                let (m2, r) = spec_mapper_write(b.cart.mapper, addr, value);
                (BoardV { cart: CartV { mapper: m2, ..b.cart }, ..b }, r)
            },
            DeviceV::PatternTables => {
                let (m2, r) = spec_mapper_ppu_write(b.cart.mapper, addr, value);
                (BoardV { cart: CartV { mapper: m2, ..b.cart }, ..b }, r)
            },
            DeviceV::Dma => (b, Err(EmuError::UnsupportedWrite { addr })),
            DeviceV::MirrorBus => (b, Err(EmuError::UnsupportedWrite { addr })),
            _ => {
                let (d2, r) = spec_local_write(b.cpu_bus[i], addr, value);
                (BoardV { cpu_bus: b.cpu_bus.update(i, d2), ..b }, r)
            },
        },
    }
}

/// The first `n` bytes of a DMA transfer from page `page`: each byte is
/// read through the processor bus and written to the object-attribute port,
/// one ordinary bus access at a time.
#[verifier::opaque]
pub open spec fn spec_dma_step(b: BoardV, page: u8, j: int) -> (BoardV, Result<(), EmuError>) {
    let src = (page * 0x100 + j) as u16;
    let (b2, r2) = spec_cpu_bus_read(b, src);
    match r2 {
        Err(e) => (b2, Err(e)),
        Ok(v) => spec_cpu_bus_write_basic(b2, 0x2004, v),
    }
}

pub open spec fn spec_dma_copy(b: BoardV, page: u8, n: int) -> (BoardV, Result<(), EmuError>)
    decreases n,
{
    if n <= 0 {
        (b, Ok(()))
    } else {
        let (b1, r1) = spec_dma_copy(b, page, n - 1);
        match r1 {
            Err(e) => (b1, Err(e)),
            Ok(_) => spec_dma_step(b1, page, n - 1),
        }
    }
}

/// A whole DMA transfer: 256 bytes copied, then the processor is charged
/// 513 cycles, plus one more when its total-cycle count is odd.
pub open spec fn spec_dma_transfer(b: BoardV, page: u8) -> (BoardV, Result<(), EmuError>) {
    let (b1, r) = spec_dma_copy(b, page, 256);
    match r {
        Err(e) => (b1, Err(e)),
        Ok(_) => {
            let cycles: u64 = if b1.cpu.total_cycles % 2 == 1 {
                514
            } else {
                513
            };
            (
                BoardV {
                    cpu: CPU {
                        remaining_cycles: w_add64(b1.cpu.remaining_cycles, cycles),
                        ..b1.cpu
                    },
                    ..b1
                },
                Ok(()),
            )
        },
    }
}

/// A write on the processor bus, the DMA trigger armed.
pub open spec fn spec_cpu_bus_write(b: BoardV, addr: u16, value: u8) -> (BoardV, Result<
    (),
    EmuError,
>) {
    match spec_find_claim(b.cpu_bus, addr) {
        None => (b, Err(EmuError::UnclaimedAddress { addr })),
        Some(i) => match b.cpu_bus[i] {
            DeviceV::Dma => spec_dma_transfer(b, value),
            _ => spec_cpu_bus_write_basic(b, addr, value),
        },
    }
}

/// A 16-bit write as two sequential 8-bit writes, low byte first then the
/// high byte at the next address.
pub open spec fn spec_cpu_bus_write_u16(b: BoardV, addr: u16, data: u16) -> (BoardV, Result<
    (),
    EmuError,
>) {
    let (b1, r1) = spec_cpu_bus_write(b, addr, (data & 0xFF) as u8);
    match r1 {
        Err(e) => (b1, Err(e)),
        Ok(_) => spec_cpu_bus_write(b1, w_add16(addr, 1), (data >> 8) as u8),
    }
}

/// An error anywhere in a DMA copy stops it: the longer copies return the
/// same faulted state.
/// One more byte of a healthy copy is one more step.
pub proof fn lemma_dma_copy_unfold(b0: BoardV, page: u8, j: int, b1: BoardV)
    requires
        0 <= j,
        spec_dma_copy(b0, page, j).0 == b1,
        !(spec_dma_copy(b0, page, j).1 is Err),
    ensures
        spec_dma_copy(b0, page, j + 1) == spec_dma_step(b1, page, j),
{
    reveal_with_fuel(spec_dma_copy, 2);
}

pub proof fn lemma_dma_copy_error_stable(b: BoardV, page: u8, n: int, m: int)
    requires
        0 <= n <= m,
        spec_dma_copy(b, page, n).1 is Err,
    ensures
        spec_dma_copy(b, page, m) == spec_dma_copy(b, page, n),
    decreases m,
{
    if m > n {
        lemma_dma_copy_error_stable(b, page, n, m - 1);
    }
}


// ---------------------------------------------------------------------------
// Frame and well-formedness lemmas: what each model transition leaves alone,
// and that the component invariants survive every transition.

/// Writes through the mapper keep its storage sizes and bank bounds.
pub proof fn lemma_mapper_write_wf(m: crate::mapper::MapperV, addr: u16, value: u8)
    requires
        crate::mapper::mapper_wf(m),
    ensures
        crate::mapper::mapper_wf(spec_mapper_write(m, addr, value).0),
        crate::mapper::mapper_wf(spec_mapper_ppu_write(m, addr, value).0),
{
}

/// The two control bits select one of four nametables.
pub proof fn lemma_control_bits(value: u8)
    ensures
        (value & 0b11) < 4,
{
    assert((value & 0b11) < 4) by (bit_vector);
}

/// A video-bus write never touches the processor, and keeps the cartridge
/// invariant.
pub proof fn lemma_ppu_bus_write_wf(ppu_bus: Seq<DeviceV>, cart: CartV, addr: u16, value: u8)
    requires
        cart_wf(cart),
    ensures
        cart_wf(spec_ppu_bus_write(ppu_bus, cart, addr, value).1),
    decreases addr,
{
    match spec_find_claim(ppu_bus, addr) {
        None => {},
        Some(i) => match ppu_bus[i] {
            DeviceV::PatternTables => {
                lemma_mapper_write_wf(cart.mapper, addr, value);
            },
            DeviceV::MirrorBus => {
                if addr >= 0x4000 {
                    lemma_ppu_bus_write_wf(ppu_bus, cart, (addr % 0x4000) as u16, value);
                }
            },
            _ => {},
        },
    }
}

/// A register-port write keeps the board invariant and leaves the processor
/// alone.
pub proof fn lemma_ppu_reg_write_wf(b: BoardV, addr: u16, value: u8)
    requires
        board_wf(b),
    ensures
        board_wf(spec_ppu_reg_write(b, addr, value).0),
        spec_ppu_reg_write(b, addr, value).0.cpu == b.cpu,
        spec_ppu_reg_write(b, addr, value).0.cpu_bus == b.cpu_bus,
    {
    let reg = w_sub16(addr, 0x2000) % 8;
    if reg == 0 {
        lemma_control_bits(value);
    } else if reg == 7 {
        let a = spec_addr_get(b.ppu.address);
        lemma_ppu_bus_write_wf(b.ppu_bus, b.cart, a, value);
    }
}

/// A processor-bus read leaves the processor, the device order and the
/// cartridge alone, and keeps the board invariant.
pub proof fn lemma_cpu_bus_read_frame(b: BoardV, addr: u16)
    ensures
        spec_cpu_bus_read(b, addr).0.cpu == b.cpu,
        spec_cpu_bus_read(b, addr).0.cpu_bus == b.cpu_bus,
        spec_cpu_bus_read(b, addr).0.cart == b.cart,
        board_wf(b) ==> board_wf(spec_cpu_bus_read(b, addr).0),
{
}

/// A DMA-inert processor-bus write leaves the processor alone and keeps the
/// board invariant.
pub proof fn lemma_cpu_bus_write_basic_frame(b: BoardV, addr: u16, value: u8)
    requires
        board_wf(b),
    ensures
        spec_cpu_bus_write_basic(b, addr, value).0.cpu == b.cpu,
        board_wf(spec_cpu_bus_write_basic(b, addr, value).0),
{
    match spec_find_claim(b.cpu_bus, addr) {
        None => {},
        Some(i) => match b.cpu_bus[i] {
            DeviceV::Ppu => {
                lemma_ppu_reg_write_wf(b, addr, value);
            },
            DeviceV::Cartridge => {
                lemma_mapper_write_wf(b.cart.mapper, addr, value);
            },
            DeviceV::PatternTables => {
                lemma_mapper_write_wf(b.cart.mapper, addr, value);
            },
            _ => {},
        },
    }
}

/// Every prefix of a DMA copy leaves the processor alone and keeps the
/// board invariant.
pub proof fn lemma_dma_copy_frame(b: BoardV, page: u8, n: int)
    requires
        board_wf(b),
    ensures
        spec_dma_copy(b, page, n).0.cpu == b.cpu,
        board_wf(spec_dma_copy(b, page, n).0),
    decreases n,
{
    reveal(spec_dma_step);
    if n > 0 {
        lemma_dma_copy_frame(b, page, n - 1);
        let (b1, r1) = spec_dma_copy(b, page, n - 1);
        if r1 is Ok {
            let src = (page * 0x100 + (n - 1)) as u16;
            lemma_cpu_bus_read_frame(b1, src);
            let (b2, r2) = spec_cpu_bus_read(b1, src);
            if r2 is Ok {
                lemma_cpu_bus_write_basic_frame(b2, 0x2004, r2->Ok_0);
            }
        }
    }
}

// ---------------------------------------------------------------------------
// Executable dispatch.

impl BoardImpl {
    /// A read on the video bus.
    pub fn ppu_bus_read(&self, addr: u16) -> (r: Result<u8, EmuError>)
        requires
            cart_wf(self@.cart),
        ensures
            r == spec_ppu_bus_read(self@.ppu_bus, self@.cart, addr),
        decreases addr,
    {
        match self.ppu_bus.find_device(addr) {
            None => Err(EmuError::UnclaimedAddress { addr }),
            Some(i) => {
                proof {
                    lemma_find_claim_found(self.ppu_bus@, addr);
                }
                match self.ppu_bus.device_tag(i) {
                    crate::bus::DeviceTag::PatternTables => self.cartridge.ppu_read(addr),
                    crate::bus::DeviceTag::MirrorBus => self.ppu_bus_read(addr % 0x4000),
                    _ => self.ppu_bus.local_read(i, addr),
                }
            },
        }
    }

    /// A write on the video bus.
    pub fn ppu_bus_write(&mut self, addr: u16, value: u8) -> (r: Result<(), EmuError>)
        requires
            board_wf(old(self)@),
        ensures
            board_wf(final(self)@),
            ({
                let (pb2, c2, r2) = spec_ppu_bus_write(
                    old(self)@.ppu_bus,
                    old(self)@.cart,
                    addr,
                    value,
                );
                &&& final(self)@ == (BoardV { ppu_bus: pb2, cart: c2, ..old(self)@ })
                &&& r == r2
            }),
        decreases addr,
    {
        proof {
            lemma_ppu_bus_write_wf(self@.ppu_bus, self@.cart, addr, value);
        }
        match self.ppu_bus.find_device(addr) {
            None => Err(EmuError::UnclaimedAddress { addr }),
            Some(i) => {
                proof {
                    lemma_find_claim_found(self.ppu_bus@, addr);
                }
                match self.ppu_bus.device_tag(i) {
                    crate::bus::DeviceTag::PatternTables => self.cartridge.ppu_write(addr, value),
                    crate::bus::DeviceTag::MirrorBus => self.ppu_bus_write(addr % 0x4000, value),
                    _ => self.ppu_bus.local_write(i, addr, value),
                }
            },
        }
    }

    /// A read of one of the video unit's register ports.
    fn ppu_reg_read(&mut self, addr: u16) -> (r: Result<u8, EmuError>)
        requires
            board_wf(old(self)@),
        ensures
            board_wf(final(self)@),
            ({
                let (b2, r2) = spec_ppu_reg_read(old(self)@, addr);
                &&& final(self)@ == b2
                &&& r == r2
            }),
    {
        let reg = addr.wrapping_sub(0x2000) % 8;
        if reg == 2 {
            Ok(self.ppu.read_reg_status())
        } else if reg == 4 {
            Ok(self.ppu.read_reg_oam_data())
        } else if reg == 7 {
            let a = self.ppu.reg_address.get();
            let v = match self.ppu_bus_read(a) {
                Ok(v) => v,
                Err(e) => {
                    return Err(e);
                },
            };
            match self.ppu.increment_address() {
                Ok(_) => Ok(v),
                Err(e) => Err(e),
            }
        } else {
            Err(EmuError::UnsupportedRead { addr })
        }
    }

    /// A write to one of the video unit's register ports.
    fn ppu_reg_write(&mut self, addr: u16, value: u8) -> (r: Result<(), EmuError>)
        requires
            board_wf(old(self)@),
        ensures
            board_wf(final(self)@),
            ({
                let (b2, r2) = spec_ppu_reg_write(old(self)@, addr, value);
                &&& final(self)@ == b2
                &&& r == r2
            }),
    {
        proof {
            lemma_ppu_reg_write_wf(self@, addr, value);
        }
        let reg = addr.wrapping_sub(0x2000) % 8;
        if reg == 0 {
            self.ppu.write_reg_control(value);
            Ok(())
        } else if reg == 1 {
            self.ppu.write_reg_mask(value);
            Ok(())
        } else if reg == 3 {
            self.ppu.write_reg_oam_addr(value);
            Ok(())
        } else if reg == 4 {
            self.ppu.write_reg_oam_data(value);
            Ok(())
        } else if reg == 5 {
            self.ppu.write_reg_scroll(value);
            Ok(())
        } else if reg == 6 {
            self.ppu.write_reg_address(value)
        } else if reg == 7 {
            let a = self.ppu.reg_address.get();
            match self.ppu_bus_write(a, value) {
                Ok(_) => {},
                Err(e) => {
                    return Err(e);
                },
            }
            self.ppu.increment_address()
        } else {
            Err(EmuError::UnsupportedWrite { addr })
        }
    }

    /// A read on the processor bus: routed to the first claiming device.
    pub fn cpu_bus_read(&mut self, addr: u16) -> (r: Result<u8, EmuError>)
        requires
            board_wf(old(self)@),
        ensures
            board_wf(final(self)@),
            ({
                let (b2, r2) = spec_cpu_bus_read(old(self)@, addr);
                &&& final(self)@ == b2
                &&& r == r2
            }),
    {
        proof {
            lemma_cpu_bus_read_frame(self@, addr);
        }
        match self.cpu_bus.find_device(addr) {
            None => Err(EmuError::UnclaimedAddress { addr }),
            Some(i) => {
                proof {
                    lemma_find_claim_found(self.cpu_bus@, addr);
                }
                match self.cpu_bus.device_tag(i) {
                    crate::bus::DeviceTag::Ppu => self.ppu_reg_read(addr),
                    crate::bus::DeviceTag::Cartridge => self.cartridge.cpu_read(addr),
                    crate::bus::DeviceTag::PatternTables => self.cartridge.ppu_read(addr),
                    crate::bus::DeviceTag::MirrorBus => Err(EmuError::UnsupportedRead { addr }),
                    _ => self.cpu_bus.local_read(i, addr),
                }
            },
        }
    }

    /// A 16-bit read: the low byte first, then the high byte at the next
    /// address; never fused, since reads can have side effects.
    pub fn cpu_bus_read_u16(&mut self, addr: u16) -> (r: Result<u16, EmuError>)
        requires
            board_wf(old(self)@),
        ensures
            board_wf(final(self)@),
            ({
                let (b2, r2) = spec_cpu_bus_read_u16(old(self)@, addr);
                &&& final(self)@ == b2
                &&& r == r2
            }),
    {
        proof {
            lemma_cpu_bus_read_frame(old(self)@, addr);
        }
        let lo = match self.cpu_bus_read(addr) {
            Ok(v) => v,
            Err(e) => {
                return Err(e);
            },
        };
        let hi = match self.cpu_bus_read(addr.wrapping_add(1)) {
            Ok(v) => v,
            Err(e) => {
                return Err(e);
            },
        };
        Ok(pack_u16(hi, lo))
    }

    /// A 16-bit write: the low byte first, then the high byte at the next
    /// address; never fused, as the 16-bit read is not.
    pub fn cpu_bus_write_u16(&mut self, addr: u16, data: u16) -> (r: Result<(), EmuError>)
        requires
            board_wf(old(self)@),
        ensures
            board_wf(final(self)@),
            ({
                let (b2, r2) = spec_cpu_bus_write_u16(old(self)@, addr, data);
                &&& final(self)@ == b2
                &&& r == r2
            }),
    {
        proof {
            lemma_cpu_bus_write_frame(old(self)@, addr, (data & 0xFF) as u8);
        }
        match self.cpu_bus_write(addr, (data & 0xFF) as u8) {
            Ok(_) => {},
            Err(e) => {
                return Err(e);
            },
        }
        self.cpu_bus_write(addr.wrapping_add(1), (data >> 8) as u8)
    }

    /// A write on the processor bus with the DMA trigger inert.
    fn cpu_bus_write_basic(&mut self, addr: u16, value: u8) -> (r: Result<(), EmuError>)
        requires
            board_wf(old(self)@),
        ensures
            board_wf(final(self)@),
            ({
                let (b2, r2) = spec_cpu_bus_write_basic(old(self)@, addr, value);
                &&& final(self)@ == b2
                &&& r == r2
            }),
    {
        proof {
            lemma_cpu_bus_write_basic_frame(self@, addr, value);
        }
        match self.cpu_bus.find_device(addr) {
            None => Err(EmuError::UnclaimedAddress { addr }),
            Some(i) => {
                proof {
                    lemma_find_claim_found(self.cpu_bus@, addr);
                }
                match self.cpu_bus.device_tag(i) {
                    crate::bus::DeviceTag::Ppu => self.ppu_reg_write(addr, value),
                    crate::bus::DeviceTag::Cartridge => self.cartridge.cpu_write(addr, value),
                    crate::bus::DeviceTag::PatternTables => self.cartridge.ppu_write(addr, value),
                    crate::bus::DeviceTag::Dma => Err(EmuError::UnsupportedWrite { addr }),
                    crate::bus::DeviceTag::MirrorBus => Err(EmuError::UnsupportedWrite { addr }),
                    crate::bus::DeviceTag::Local => self.cpu_bus.local_write(i, addr, value),
                }
            },
        }
    }

    /// The DMA stall unit: copies a 256-byte page through ordinary bus
    /// accesses into the object-attribute port, then charges the processor
    /// 513 cycles, one more when its total-cycle count is odd.
    /// One byte of the transfer: a bus read of the source, a bus write of
    /// the object-attribute port.
    fn dma_step(&mut self, page: u8, j: u16) -> (r: Result<(), EmuError>)
        requires
            board_wf(old(self)@),
            j < 256,
        ensures
            board_wf(final(self)@),
            final(self)@.cpu == old(self)@.cpu,
            ({
                let (b2, r2) = spec_dma_step(old(self)@, page, j as int);
                &&& final(self)@ == b2
                &&& r == r2
            }),
    {
        proof {
            reveal(spec_dma_step);
        }
        let src: u16 = (page as u16) * 0x100 + j;
        proof {
            lemma_cpu_bus_read_frame(self@, src);
        }
        let v = match self.cpu_bus_read(src) {
            Ok(v) => v,
            Err(e) => {
                return Err(e);
            },
        };
        proof {
            lemma_cpu_bus_write_basic_frame(self@, 0x2004, v);
        }
        self.cpu_bus_write_basic(0x2004, v)
    }

    #[verifier::rlimit(100)]
    fn dma_transfer(&mut self, page: u8) -> (r: Result<(), EmuError>)
        requires
            board_wf(old(self)@),
        ensures
            board_wf(final(self)@),
            ({
                let (b2, r2) = spec_dma_transfer(old(self)@, page);
                &&& final(self)@ == b2
                &&& r == r2
            }),
    {
        let ghost b0 = self@;
        let mut j: usize = 0;
        while j < 256
            invariant
                b0 == old(self)@,
                j <= 256,
                board_wf(self@),
                self@.cpu == b0.cpu,
                self@ == spec_dma_copy(b0, page, j as int).0,
                !(spec_dma_copy(b0, page, j as int).1 is Err),
            decreases 256 - j,
        {
            let ghost prev = self@;
            proof {
                lemma_dma_copy_unfold(b0, page, j as int, prev);
            }
            let rr = self.dma_step(page, j as u16);
            proof {
                assert((j as u16) as int == j as int);
                assert(rr == spec_dma_step(prev, page, j as int).1);
                assert(self@ == spec_dma_step(prev, page, j as int).0);
            }
            match rr {
                Ok(_) => {},
                Err(e) => {
                    proof {
                        lemma_dma_copy_error_stable(b0, page, j as int + 1, 256);
                    }
                    return Err(e);
                },
            }
            j = j + 1;
        }
        let total = self.cpu.total_cycles;
        let cycles: u64 = if total % 2 == 1 {
            514
        } else {
            513
        };
        self.cpu.remaining_cycles = self.cpu.remaining_cycles.wrapping_add(cycles);
        Ok(())
    }

    /// A write on the processor bus, the DMA trigger armed: a byte written
    /// to the trigger port starts a whole page transfer.
    pub fn cpu_bus_write(&mut self, addr: u16, value: u8) -> (r: Result<(), EmuError>)
        requires
            board_wf(old(self)@),
        ensures
            board_wf(final(self)@),
            ({
                let (b2, r2) = spec_cpu_bus_write(old(self)@, addr, value);
                &&& final(self)@ == b2
                &&& r == r2
            }),
    {
        match self.cpu_bus.find_device(addr) {
            None => Err(EmuError::UnclaimedAddress { addr }),
            Some(i) => {
                proof {
                    lemma_find_claim_found(self.cpu_bus@, addr);
                }
                match self.cpu_bus.device_tag(i) {
                    crate::bus::DeviceTag::Dma => self.dma_transfer(value),
                    _ => self.cpu_bus_write_basic(addr, value),
                }
            },
        }
    }
}


// ---------------------------------------------------------------------------
// The stack: pushes descend from 0x0100 + SP, pops ascend.

pub open spec fn spec_push_stack(b: BoardV, value: u8) -> (BoardV, Result<(), EmuError>) {
    let (b1, r) = spec_cpu_bus_write(b, (0x0100 + b.cpu.reg_sp) as u16, value);
    match r {
        Err(e) => (b1, Err(e)),
        Ok(_) => (
            BoardV { cpu: CPU { reg_sp: w_sub8(b1.cpu.reg_sp, 1), ..b1.cpu }, ..b1 },
            Ok(()),
        ),
    }
}

pub open spec fn spec_pop_stack(b: BoardV) -> (BoardV, Result<u8, EmuError>) {
    let sp2 = w_add8(b.cpu.reg_sp, 1);
    let b1 = BoardV { cpu: CPU { reg_sp: sp2, ..b.cpu }, ..b };
    spec_cpu_bus_read(b1, (0x0100 + sp2) as u16)
}

/// A 16-bit push: high byte first, so the low byte ends up lower in memory.
pub open spec fn spec_push_stack_u16(b: BoardV, value: u16) -> (BoardV, Result<(), EmuError>) {
    let (b1, r1) = spec_push_stack(b, (value >> 8) as u8);
    match r1 {
        Err(e) => (b1, Err(e)),
        Ok(_) => spec_push_stack(b1, (value & 0xFF) as u8),
    }
}

/// A 16-bit pop: low byte first.
pub open spec fn spec_pop_stack_u16(b: BoardV) -> (BoardV, Result<u16, EmuError>) {
    let (b1, r1) = spec_pop_stack(b);
    match r1 {
        Err(e) => (b1, Err(e)),
        Ok(lo) => {
            let (b2, r2) = spec_pop_stack(b1);
            match r2 {
                Err(e) => (b2, Err(e)),
                Ok(hi) => (b2, Ok(spec_pack_u16(hi, lo))),
            }
        },
    }
}

impl BoardImpl {
    pub fn push_stack(&mut self, value: u8) -> (r: Result<(), EmuError>)
        requires
            board_wf(old(self)@),
        ensures
            board_wf(final(self)@),
            ({
                let (b2, r2) = spec_push_stack(old(self)@, value);
                &&& final(self)@ == b2
                &&& r == r2
            }),
    {
        let addr: u16 = 0x0100 + self.cpu.reg_sp as u16;
        match self.cpu_bus_write(addr, value) {
            Ok(_) => {
                self.cpu.reg_sp = self.cpu.reg_sp.wrapping_sub(1);
                Ok(())
            },
            Err(e) => Err(e),
        }
    }

    pub fn pop_stack(&mut self) -> (r: Result<u8, EmuError>)
        requires
            board_wf(old(self)@),
        ensures
            board_wf(final(self)@),
            ({
                let (b2, r2) = spec_pop_stack(old(self)@);
                &&& final(self)@ == b2
                &&& r == r2
            }),
    {
        proof {
            lemma_pop_stack_frame(self@);
        }
        self.cpu.reg_sp = self.cpu.reg_sp.wrapping_add(1);
        let addr: u16 = 0x0100 + self.cpu.reg_sp as u16;
        self.cpu_bus_read(addr)
    }

    pub fn push_stack_u16(&mut self, value: u16) -> (r: Result<(), EmuError>)
        requires
            board_wf(old(self)@),
        ensures
            board_wf(final(self)@),
            ({
                let (b2, r2) = spec_push_stack_u16(old(self)@, value);
                &&& final(self)@ == b2
                &&& r == r2
            }),
    {
        proof {
            lemma_push_stack_frame(old(self)@, (value >> 8) as u8);
        }
        match self.push_stack((value >> 8) as u8) {
            Ok(_) => {},
            Err(e) => {
                return Err(e);
            },
        }
        self.push_stack((value & 0xFF) as u8)
    }

    pub fn pop_stack_u16(&mut self) -> (r: Result<u16, EmuError>)
        requires
            board_wf(old(self)@),
        ensures
            board_wf(final(self)@),
            ({
                let (b2, r2) = spec_pop_stack_u16(old(self)@);
                &&& final(self)@ == b2
                &&& r == r2
            }),
    {
        proof {
            lemma_pop_stack_frame(old(self)@);
        }
        let lo = match self.pop_stack() {
            Ok(v) => v,
            Err(e) => {
                return Err(e);
            },
        };
        let hi = match self.pop_stack() {
            Ok(v) => v,
            Err(e) => {
                return Err(e);
            },
        };
        Ok(pack_u16(hi, lo))
    }
}

/// A processor-bus write (DMA armed) keeps the board invariant, and can
/// raise the cycle debt by at most the DMA stall.
pub proof fn lemma_cpu_bus_write_frame(b: BoardV, addr: u16, value: u8)
    requires
        board_wf(b),
    ensures
        board_wf(spec_cpu_bus_write(b, addr, value).0),
        spec_cpu_bus_write(b, addr, value).0.cpu.total_cycles == b.cpu.total_cycles,
        spec_cpu_bus_write(b, addr, value).0.cpu.reg_sp == b.cpu.reg_sp,
        spec_cpu_bus_write(b, addr, value).0.cpu.reg_status == b.cpu.reg_status,
        spec_cpu_bus_write(b, addr, value).0.cpu.reg_pc == b.cpu.reg_pc,
{
    match spec_find_claim(b.cpu_bus, addr) {
        None => {},
        Some(i) => match b.cpu_bus[i] {
            DeviceV::Dma => {
                lemma_dma_copy_frame(b, value, 256);
            },
            _ => {
                lemma_cpu_bus_write_basic_frame(b, addr, value);
            },
        },
    }
}

/// A push keeps the board invariant and the cycle bound.
pub proof fn lemma_push_stack_frame(b: BoardV, value: u8)
    requires
        board_wf(b),
    ensures
        board_wf(spec_push_stack(b, value).0),
        spec_push_stack(b, value).0.cpu.total_cycles == b.cpu.total_cycles,
{
    lemma_cpu_bus_write_frame(b, (0x0100 + b.cpu.reg_sp) as u16, value);
}

/// A pop keeps the board invariant and the processor's cycle counters.
pub proof fn lemma_pop_stack_frame(b: BoardV)
    requires
        board_wf(b),
    ensures
        board_wf(spec_pop_stack(b).0),
        spec_pop_stack(b).0.cpu.remaining_cycles == b.cpu.remaining_cycles,
        spec_pop_stack(b).0.cpu.total_cycles == b.cpu.total_cycles,
        spec_pop_stack(b).0.cpu.reg_status == b.cpu.reg_status,
    {
    let sp2 = w_add8(b.cpu.reg_sp, 1);
    let b1 = BoardV { cpu: CPU { reg_sp: sp2, ..b.cpu }, ..b };
    lemma_cpu_bus_read_frame(b1, (0x0100 + sp2) as u16);
}

// ---------------------------------------------------------------------------
// Interrupt service.

/// Service of the non-maskable interrupt: the program counter and the
/// status byte (break and unused forced on) are pushed, interrupts are
/// disabled, the handler address is loaded from `0xFFFA`, and seven cycles
/// are owed.
pub open spec fn spec_interrupt_nmi(b: BoardV) -> (BoardV, Result<(), EmuError>) {
    spec_interrupt_via_vector(b, 0xFFFA)
}

/// Service through a vector: shared by the non-maskable and the maskable
/// interrupt.
pub open spec fn spec_interrupt_via_vector(b: BoardV, vector: u16) -> (BoardV, Result<
    (),
    EmuError,
>) {
    let (b1, r1) = spec_push_stack_u16(b, b.cpu.reg_pc);
    match r1 {
        Err(e) => (b1, Err(e)),
        Ok(_) => {
            let (b2, r2) = spec_push_stack(b1, (b1.cpu.reg_status | 0x30) as u8);
            match r2 {
                Err(e) => (b2, Err(e)),
                Ok(_) => {
                    let b3 = BoardV {
                        cpu: CPU {
                            reg_status: crate::status::spec_set_status_flag(
                                b2.cpu.reg_status,
                                crate::status::StatusFlag::InterruptDisable,
                                true,
                            ),
                            ..b2.cpu
                        },
                        ..b2
                    };
                    let (b4, r4) = spec_cpu_bus_read_u16(b3, vector);
                    match r4 {
                        Err(e) => (b4, Err(e)),
                        Ok(v) => (
                            BoardV {
                                cpu: CPU { reg_pc: v, remaining_cycles: 7, ..b4.cpu },
                                ..b4
                            },
                            Ok(()),
                        ),
                    }
                },
            }
        },
    }
}

/// Reset: nothing is pushed; the stack pointer and status return to their
/// power-on values, the entry point is loaded from `0xFFFC`, and seven
/// cycles are owed.
pub open spec fn spec_interrupt_reset(b: BoardV) -> (BoardV, Result<(), EmuError>) {
    let b1 = BoardV { cpu: CPU { reg_sp: 0xFD, reg_status: 0x24, ..b.cpu }, ..b };
    let (b2, r2) = spec_cpu_bus_read_u16(b1, 0xFFFC);
    match r2 {
        Err(e) => (b2, Err(e)),
        Ok(v) => (
            BoardV { cpu: CPU { reg_pc: v, remaining_cycles: 7, ..b2.cpu }, ..b2 },
            Ok(()),
        ),
    }
}

/// The maskable interrupt is suppressed while interrupt-disable is set;
/// otherwise it is serviced through `0xFFFE`.
pub open spec fn spec_interrupt_irq(b: BoardV) -> (BoardV, Result<(), EmuError>) {
    if crate::status::spec_get_status_flag(
        b.cpu.reg_status,
        crate::status::StatusFlag::InterruptDisable,
    ) {
        (b, Ok(()))
    } else {
        spec_interrupt_via_vector(b, 0xFFFE)
    }
}

pub open spec fn spec_execute_interrupt(b: BoardV, signal: crate::cpu::Interrupt) -> (
    BoardV,
    Result<(), EmuError>,
) {
    match signal {
        crate::cpu::Interrupt::Nmi => spec_interrupt_nmi(b),
        crate::cpu::Interrupt::Reset => spec_interrupt_reset(b),
        crate::cpu::Interrupt::Irq => spec_interrupt_irq(b),
    }
}

impl BoardImpl {
    fn interrupt_via_vector(&mut self, vector: u16) -> (r: Result<(), EmuError>)
        requires
            board_wf(old(self)@),
        ensures
            board_wf(final(self)@),
            ({
                let (b2, r2) = spec_interrupt_via_vector(old(self)@, vector);
                &&& final(self)@ == b2
                &&& r == r2
            }),
    {
        proof {
            lemma_push_stack_frame(old(self)@, (old(self)@.cpu.reg_pc >> 8) as u8);
            let (b1, r1) = spec_push_stack_u16(old(self)@, old(self)@.cpu.reg_pc);
            if r1 is Ok {
                lemma_push_stack_frame(
                    spec_push_stack(old(self)@, (old(self)@.cpu.reg_pc >> 8) as u8).0,
                    (old(self)@.cpu.reg_pc & 0xFF) as u8,
                );
                lemma_push_stack_frame(b1, (b1.cpu.reg_status | 0x30) as u8);
            }
        }
        let pc = self.cpu.reg_pc;
        match self.push_stack_u16(pc) {
            Ok(_) => {},
            Err(e) => {
                return Err(e);
            },
        }
        let status = self.cpu.reg_status | 0x30;
        match self.push_stack(status) {
            Ok(_) => {},
            Err(e) => {
                return Err(e);
            },
        }
        self.cpu.set_flag(crate::status::StatusFlag::InterruptDisable, true);
        let v = match self.cpu_bus_read_u16(vector) {
            Ok(v) => v,
            Err(e) => {
                return Err(e);
            },
        };
        self.cpu.reg_pc = v;
        self.cpu.remaining_cycles = 7;
        Ok(())
    }

    /// Services one interrupt signal.
    pub fn execute_interrupt(&mut self, signal: crate::cpu::Interrupt) -> (r: Result<
        (),
        EmuError,
    >)
        requires
            board_wf(old(self)@),
        ensures
            board_wf(final(self)@),
            ({
                let (b2, r2) = spec_execute_interrupt(old(self)@, signal);
                &&& final(self)@ == b2
                &&& r == r2
            }),
    {
        match signal {
            crate::cpu::Interrupt::Nmi => self.interrupt_via_vector(0xFFFA),
            crate::cpu::Interrupt::Reset => {
                self.cpu.reg_sp = 0xFD;
                self.cpu.reg_status = 0x24;
                let v = match self.cpu_bus_read_u16(0xFFFC) {
                    Ok(v) => v,
                    Err(e) => {
                        return Err(e);
                    },
                };
                self.cpu.reg_pc = v;
                self.cpu.remaining_cycles = 7;
                Ok(())
            },
            crate::cpu::Interrupt::Irq => {
                if self.cpu.get_flag(crate::status::StatusFlag::InterruptDisable) {
                    Ok(())
                } else {
                    self.interrupt_via_vector(0xFFFE)
                }
            },
        }
    }
}

// ---------------------------------------------------------------------------
// Addressing-mode resolution.

/// What a mode resolves to: a target address, whether the computation left
/// its page, and how far the program counter advances.
#[derive(Clone, Copy, Debug, PartialEq, Eq, Structural)]
pub struct AddressingModeResult {
    pub address: u16,
    pub page_crossed: bool,
    pub pc_increment: u16,
}

/// A 16-bit pointer read that cannot leave its page: when the low pointer
/// byte is `0xFF` the high byte comes from offset `0x00` of the same page,
/// reproducing the original address-decoder bug.  The high byte is read
/// first, as the fielded implementation reads it.
pub open spec fn spec_read_u16_uncross(b: BoardV, addr: u16) -> (BoardV, Result<u16, EmuError>) {
    let next = ((addr & 0xFF00) | (w_add16(addr, 1) & 0xFF)) as u16;
    let (b1, r1) = spec_cpu_bus_read(b, next);
    match r1 {
        Err(e) => (b1, Err(e)),
        Ok(hi) => {
            let (b2, r2) = spec_cpu_bus_read(b1, addr);
            match r2 {
                Err(e) => (b2, Err(e)),
                Ok(lo) => (b2, Ok(spec_pack_u16(hi, lo))),
            }
        },
    }
}

/// Sign extension of a relative offset byte to the 16-bit address width.
pub open spec fn spec_sign_extend(off: u8) -> u16 {
    if off >= 0x80 {
        ((off as u16) | 0xFF00) as u16
    } else {
        off as u16
    }
}

/// Resolution of an addressing mode against the current registers and
/// memory, with the program counter still at the opcode.  Zero-page modes
/// wrap within the zero page; absolute indexed modes report a page cross;
/// indirect modes use the same-page pointer read above.
pub open spec fn spec_get_data_address(b: BoardV, mode: crate::opcode::AddressingMode) -> (
    BoardV,
    Result<AddressingModeResult, EmuError>,
) {
    let pc1 = w_add16(b.cpu.reg_pc, 1);
    match mode {
        crate::opcode::AddressingMode::Immediate => (
            b,
            Ok(AddressingModeResult { address: pc1, page_crossed: false, pc_increment: 2 }),
        ),
        crate::opcode::AddressingMode::ZeroPage => {
            let (b1, r1) = spec_cpu_bus_read(b, pc1);
            match r1 {
                Err(e) => (b1, Err(e)),
                Ok(v) => (
                    b1,
                    Ok(
                        AddressingModeResult {
                            address: v as u16,
                            page_crossed: false,
                            pc_increment: 2,
                        },
                    ),
                ),
            }
        },
        crate::opcode::AddressingMode::ZeroPageX => {
            let (b1, r1) = spec_cpu_bus_read(b, pc1);
            match r1 {
                Err(e) => (b1, Err(e)),
                Ok(v) => (
                    b1,
                    Ok(
                        AddressingModeResult {
                            address: w_add8(v, b.cpu.reg_x) as u16,
                            page_crossed: false,
                            pc_increment: 2,
                        },
                    ),
                ),
            }
        },
        crate::opcode::AddressingMode::ZeroPageY => {
            let (b1, r1) = spec_cpu_bus_read(b, pc1);
            match r1 {
                Err(e) => (b1, Err(e)),
                Ok(v) => (
                    b1,
                    Ok(
                        AddressingModeResult {
                            address: w_add8(v, b.cpu.reg_y) as u16,
                            page_crossed: false,
                            pc_increment: 2,
                        },
                    ),
                ),
            }
        },
        crate::opcode::AddressingMode::Absolute => {
            let (b1, r1) = spec_cpu_bus_read_u16(b, pc1);
            match r1 {
                Err(e) => (b1, Err(e)),
                Ok(v) => (
                    b1,
                    Ok(AddressingModeResult { address: v, page_crossed: false, pc_increment: 3 }),
                ),
            }
        },
        crate::opcode::AddressingMode::AbsoluteX => {
            let (b1, r1) = spec_cpu_bus_read_u16(b, pc1);
            match r1 {
                Err(e) => (b1, Err(e)),
                Ok(base) => {
                    let addr2 = w_add16(base, b.cpu.reg_x as u16);
                    (
                        b1,
                        Ok(
                            AddressingModeResult {
                                address: addr2,
                                page_crossed: crate::bits::spec_is_page_crossed(base, addr2),
                                pc_increment: 3,
                            },
                        ),
                    )
                },
            }
        },
        crate::opcode::AddressingMode::AbsoluteY => {
            let (b1, r1) = spec_cpu_bus_read_u16(b, pc1);
            match r1 {
                Err(e) => (b1, Err(e)),
                Ok(base) => {
                    let addr2 = w_add16(base, b.cpu.reg_y as u16);
                    (
                        b1,
                        Ok(
                            AddressingModeResult {
                                address: addr2,
                                page_crossed: crate::bits::spec_is_page_crossed(base, addr2),
                                pc_increment: 3,
                            },
                        ),
                    )
                },
            }
        },
        crate::opcode::AddressingMode::IndexedIndirect => {
            let (b1, r1) = spec_cpu_bus_read(b, pc1);
            match r1 {
                Err(e) => (b1, Err(e)),
                Ok(base) => {
                    let (b2, r2) = spec_read_u16_uncross(b1, w_add8(base, b.cpu.reg_x) as u16);
                    match r2 {
                        Err(e) => (b2, Err(e)),
                        Ok(addr2) => (
                            b2,
                            Ok(
                                AddressingModeResult {
                                    address: addr2,
                                    page_crossed: false,
                                    pc_increment: 2,
                                },
                            ),
                        ),
                    }
                },
            }
        },
        crate::opcode::AddressingMode::IndirectIndexed => {
            let (b1, r1) = spec_cpu_bus_read(b, pc1);
            match r1 {
                Err(e) => (b1, Err(e)),
                Ok(base) => {
                    let (b2, r2) = spec_read_u16_uncross(b1, base as u16);
                    match r2 {
                        Err(e) => (b2, Err(e)),
                        Ok(ptr) => {
                            let addr2 = w_add16(ptr, b.cpu.reg_y as u16);
                            (
                                b2,
                                Ok(
                                    AddressingModeResult {
                                        address: addr2,
                                        page_crossed: crate::bits::spec_is_page_crossed(
                                            addr2,
                                            w_sub16(addr2, b.cpu.reg_y as u16),
                                        ),
                                        pc_increment: 2,
                                    },
                                ),
                            )
                        },
                    }
                },
            }
        },
        crate::opcode::AddressingMode::Accumulator => (
            b,
            Ok(AddressingModeResult { address: 0, page_crossed: false, pc_increment: 1 }),
        ),
        crate::opcode::AddressingMode::Relative => {
            let (b1, r1) = spec_cpu_bus_read(b, pc1);
            match r1 {
                Err(e) => (b1, Err(e)),
                Ok(off) => (
                    b1,
                    Ok(
                        AddressingModeResult {
                            address: w_add16(w_add16(b.cpu.reg_pc, 2), spec_sign_extend(off)),
                            page_crossed: false,
                            pc_increment: 2,
                        },
                    ),
                ),
            }
        },
        crate::opcode::AddressingMode::Implied => (
            b,
            Ok(AddressingModeResult { address: 0, page_crossed: false, pc_increment: 1 }),
        ),
        crate::opcode::AddressingMode::Indirect => {
            let (b1, r1) = spec_cpu_bus_read_u16(b, pc1);
            match r1 {
                Err(e) => (b1, Err(e)),
                Ok(base) => {
                    let (b2, r2) = spec_read_u16_uncross(b1, base);
                    match r2 {
                        Err(e) => (b2, Err(e)),
                        Ok(addr2) => (
                            b2,
                            Ok(
                                AddressingModeResult {
                                    address: addr2,
                                    page_crossed: false,
                                    pc_increment: 3,
                                },
                            ),
                        ),
                    }
                },
            }
        },
    }
}

impl BoardImpl {
    /// The same-page 16-bit pointer read.
    fn read_u16_uncross(&mut self, addr: u16) -> (r: Result<u16, EmuError>)
        requires
            board_wf(old(self)@),
        ensures
            board_wf(final(self)@),
            ({
                let (b2, r2) = spec_read_u16_uncross(old(self)@, addr);
                &&& final(self)@ == b2
                &&& r == r2
            }),
    {
        proof {
            lemma_cpu_bus_read_frame(old(self)@, ((addr & 0xFF00) | (w_add16(addr, 1) & 0xFF)) as u16);
        }
        let next: u16 = (addr & 0xFF00) | (addr.wrapping_add(1) & 0xFF);
        let hi = match self.cpu_bus_read(next) {
            Ok(v) => v,
            Err(e) => {
                return Err(e);
            },
        };
        let lo = match self.cpu_bus_read(addr) {
            Ok(v) => v,
            Err(e) => {
                return Err(e);
            },
        };
        Ok(pack_u16(hi, lo))
    }

    /// Resolves the operand address for one addressing mode; the program
    /// counter still points at the opcode.
    pub fn get_data_address(&mut self, mode: crate::opcode::AddressingMode) -> (r: Result<
        AddressingModeResult,
        EmuError,
    >)
        requires
            board_wf(old(self)@),
        ensures
            board_wf(final(self)@),
            ({
                let (b2, r2) = spec_get_data_address(old(self)@, mode);
                &&& final(self)@ == b2
                &&& r == r2
            }),
    {
        proof {
            lemma_cpu_bus_read_frame(old(self)@, w_add16(old(self)@.cpu.reg_pc, 1));
        }
        let pc1 = self.cpu.reg_pc.wrapping_add(1);
        match mode {
            crate::opcode::AddressingMode::Immediate => Ok(
                AddressingModeResult { address: pc1, page_crossed: false, pc_increment: 2 },
            ),
            crate::opcode::AddressingMode::ZeroPage => {
                let v = self.cpu_bus_read(pc1)?;
                Ok(AddressingModeResult { address: v as u16, page_crossed: false, pc_increment: 2 })
            },
            crate::opcode::AddressingMode::ZeroPageX => {
                let v = self.cpu_bus_read(pc1)?;
                Ok(
                    AddressingModeResult {
                        address: v.wrapping_add(self.cpu.reg_x) as u16,
                        page_crossed: false,
                        pc_increment: 2,
                    },
                )
            },
            crate::opcode::AddressingMode::ZeroPageY => {
                let v = self.cpu_bus_read(pc1)?;
                Ok(
                    AddressingModeResult {
                        address: v.wrapping_add(self.cpu.reg_y) as u16,
                        page_crossed: false,
                        pc_increment: 2,
                    },
                )
            },
            crate::opcode::AddressingMode::Absolute => {
                let v = self.cpu_bus_read_u16(pc1)?;
                Ok(AddressingModeResult { address: v, page_crossed: false, pc_increment: 3 })
            },
            crate::opcode::AddressingMode::AbsoluteX => {
                let x = self.cpu.reg_x;
                let base = self.cpu_bus_read_u16(pc1)?;
                let addr2 = base.wrapping_add(x as u16);
                Ok(
                    AddressingModeResult {
                        address: addr2,
                        page_crossed: crate::bits::is_page_crossed(base, addr2),
                        pc_increment: 3,
                    },
                )
            },
            crate::opcode::AddressingMode::AbsoluteY => {
                let y = self.cpu.reg_y;
                let base = self.cpu_bus_read_u16(pc1)?;
                let addr2 = base.wrapping_add(y as u16);
                Ok(
                    AddressingModeResult {
                        address: addr2,
                        page_crossed: crate::bits::is_page_crossed(base, addr2),
                        pc_increment: 3,
                    },
                )
            },
            crate::opcode::AddressingMode::IndexedIndirect => {
                let x = self.cpu.reg_x;
                let base = self.cpu_bus_read(pc1)?;
                proof {
                    lemma_cpu_bus_read_frame(old(self)@, w_add16(old(self)@.cpu.reg_pc, 1));
                }
                let addr2 = self.read_u16_uncross(base.wrapping_add(x) as u16)?;
                Ok(AddressingModeResult { address: addr2, page_crossed: false, pc_increment: 2 })
            },
            crate::opcode::AddressingMode::IndirectIndexed => {
                let y = self.cpu.reg_y;
                let base = self.cpu_bus_read(pc1)?;
                let ptr = self.read_u16_uncross(base as u16)?;
                let addr2 = ptr.wrapping_add(y as u16);
                Ok(
                    AddressingModeResult {
                        address: addr2,
                        page_crossed: crate::bits::is_page_crossed(addr2, addr2.wrapping_sub(y as u16)),
                        pc_increment: 2,
                    },
                )
            },
            crate::opcode::AddressingMode::Accumulator => Ok(
                AddressingModeResult { address: 0, page_crossed: false, pc_increment: 1 },
            ),
            crate::opcode::AddressingMode::Relative => {
                let pc = self.cpu.reg_pc;
                let off = self.cpu_bus_read(pc1)?;
                let ext: u16 = if off >= 0x80 {
                    (off as u16) | 0xFF00
                } else {
                    off as u16
                };
                Ok(
                    AddressingModeResult {
                        address: pc.wrapping_add(2).wrapping_add(ext),
                        page_crossed: false,
                        pc_increment: 2,
                    },
                )
            },
            crate::opcode::AddressingMode::Implied => Ok(
                AddressingModeResult { address: 0, page_crossed: false, pc_increment: 1 },
            ),
            crate::opcode::AddressingMode::Indirect => {
                let base = self.cpu_bus_read_u16(pc1)?;
                let addr2 = self.read_u16_uncross(base)?;
                Ok(AddressingModeResult { address: addr2, page_crossed: false, pc_increment: 3 })
            },
        }
    }
}


// ---------------------------------------------------------------------------
// The step itself, board construction, and the processor's external surface.

/// The fetch-decode-execute path of one step: the opcode is fetched and
/// looked up (an unknown opcode is a fatal decode error), the operand
/// address is resolved, the program counter advances by the mode's length,
/// the base cycles are charged -- one more when the mode crossed a page and
/// the opcode cares -- and the instruction's transition is applied.
pub open spec fn spec_fetch_execute(b: BoardV) -> (BoardV, Result<(), EmuError>) {
    let (b1, r1) = spec_cpu_bus_read(b, b.cpu.reg_pc);
    match r1 {
        Err(e) => (b1, Err(e)),
        Ok(opcode) => match crate::opcode::spec_get_op(opcode) {
            None => (b1, Err(EmuError::UnknownOpcode { opcode })),
            Some(op) => {
                let b2 = BoardV { cpu: CPU { mode: op.mode, ..b1.cpu }, ..b1 };
                let (b3, r3) = spec_get_data_address(b2, op.mode);
                match r3 {
                    Err(e) => (b3, Err(e)),
                    Ok(res) => {
                        let extra: u64 = if res.page_crossed && op.increase_cycle_when_cross_page {
                            1
                        } else {
                            0
                        };
                        let b4 = BoardV {
                            cpu: CPU {
                                data_address: res.address,
                                reg_pc: w_add16(b3.cpu.reg_pc, res.pc_increment),
                                remaining_cycles: w_add64(
                                    b3.cpu.remaining_cycles,
                                    (extra + op.cycles) as u64,
                                ),
                                ..b3.cpu
                            },
                            ..b3
                        };
                        crate::instr::spec_execute_instruction(b4, op.instruction)
                    },
                }
            },
        },
    }
}

/// One processor clock.  Exactly one of three things happens, in this
/// priority order: a cycle of debt is drained (total cycles advance, no
/// visible state change); a pending interrupt is serviced; or one
/// instruction is fetched, decoded and executed.
pub open spec fn spec_clock(b: BoardV) -> (BoardV, Result<(), EmuError>) {
    if b.cpu.remaining_cycles > 0 {
        (
            BoardV {
                cpu: CPU {
                    remaining_cycles: (b.cpu.remaining_cycles - 1) as u64,
                    total_cycles: w_add64(b.cpu.total_cycles, 1),
                    ..b.cpu
                },
                ..b
            },
            Ok(()),
        )
    } else {
        match b.cpu.pending_interrupt {
            Some(signal) => spec_execute_interrupt(
                BoardV { cpu: CPU { pending_interrupt: None, ..b.cpu }, ..b },
                signal,
            ),
            None => spec_fetch_execute(b),
        }
    }
}

/// Reset of the whole board: the processor takes the reset interrupt and
/// its total-cycle count restarts at the seven cycles the reset owes, the
/// video unit returns to its reset state, and the work RAM clears.
pub open spec fn spec_board_reset(b: BoardV) -> (BoardV, Result<(), EmuError>) {
    let (b1, r) = spec_interrupt_reset(b);
    match r {
        Err(e) => (b1, Err(e)),
        Ok(_) => (
            BoardV {
                cpu: CPU { total_cycles: 7, ..b1.cpu },
                ppu: crate::ppu::spec_ppu_reset(b1.ppu),
                cpu_bus: crate::bus::spec_reset_rams(b1.cpu_bus),
                ..b1
            },
            Ok(()),
        ),
    }
}

/// The freshly wired board: 2KB of work RAM, the register ports, the
/// cartridge, the input, audio and DMA devices on the processor bus, in
/// that registration order; the pattern tables, the mirrored nametable RAM,
/// the palette RAM and the whole-space mirror on the video bus.
pub open spec fn spec_initial_board(cart: CartV) -> BoardV {
    BoardV {
        cpu: crate::cpu::spec_initial_cpu(),
        cpu_bus: seq![
            DeviceV::Ram(Seq::new(0x800nat, |i: int| 0u8)),
            DeviceV::Ppu,
            DeviceV::Cartridge,
            DeviceV::Joypad,
            DeviceV::Apu,
            DeviceV::Dma,
        ],
        ppu_bus: seq![
            DeviceV::PatternTables,
            DeviceV::NameTables {
                vram: Seq::new(0x1000nat, |i: int| 0u8),
                mirroring: cart.mirroring,
            },
            DeviceV::Palettes(Seq::new(0x20nat, |i: int| 0u8)),
            DeviceV::MirrorBus,
        ],
        ppu: crate::ppu::spec_initial_ppu(),
        cart,
    }
}

impl BoardImpl {
    /// One processor clock.
    pub fn clock(&mut self) -> (r: Result<(), EmuError>)
        requires
            board_wf(old(self)@),
        ensures
            board_wf(final(self)@),
            ({
                let (b2, r2) = spec_clock(old(self)@);
                &&& final(self)@ == b2
                &&& r == r2
            }),
    {
        if self.cpu.remaining_cycles > 0 {
            self.cpu.remaining_cycles = self.cpu.remaining_cycles - 1;
            self.cpu.total_cycles = self.cpu.total_cycles.wrapping_add(1);
            return Ok(());
        }
        match self.cpu.pending_interrupt {
            Some(signal) => {
                self.cpu.pending_interrupt = None;
                return self.execute_interrupt(signal);
            },
            None => {},
        }
        let pc = self.cpu.reg_pc;
        let opcode = match self.cpu_bus_read(pc) {
            Ok(v) => v,
            Err(e) => {
                return Err(e);
            },
        };
        let op = match crate::opcode::get_op(opcode) {
            Some(op) => op,
            None => {
                return Err(EmuError::UnknownOpcode { opcode });
            },
        };
        self.cpu.mode = op.mode;
        let res = match self.get_data_address(op.mode) {
            Ok(res) => res,
            Err(e) => {
                return Err(e);
            },
        };
        self.cpu.data_address = res.address;
        self.cpu.reg_pc = self.cpu.reg_pc.wrapping_add(res.pc_increment);
        let extra: u64 = if res.page_crossed && op.increase_cycle_when_cross_page {
            1
        } else {
            0
        };
        self.cpu.remaining_cycles = self.cpu.remaining_cycles.wrapping_add(
            extra + op.cycles as u64,
        );
        self.execute_instruction(op.instruction)
    }

    /// Resets the processor, the video unit and the work RAM.
    pub fn reset(&mut self) -> (r: Result<(), EmuError>)
        requires
            board_wf(old(self)@),
        ensures
            board_wf(final(self)@),
            ({
                let (b2, r2) = spec_board_reset(old(self)@);
                &&& final(self)@ == b2
                &&& r == r2
            }),
    {
        match self.execute_interrupt(crate::cpu::Interrupt::Reset) {
            Ok(_) => {},
            Err(e) => {
                return Err(e);
            },
        }
        self.cpu.total_cycles = 7;
        self.ppu.reset();
        self.cpu_bus.reset_ram();
        proof {
            lemma_control_bits(0);
        }
        Ok(())
    }

    /// Wires every device onto the two buses in the fixed registration
    /// order and pairs them with a power-on processor and video unit.
    pub fn new(cartridge: CartridgeImpl) -> (r: BoardImpl)
        ensures
            r@ == spec_initial_board(cartridge@),
    {
        let mirroring = cartridge.mirroring();
        let mut cpu_bus = BusImpl::new();
        cpu_bus.register_device(
            BusDevice::Ram(crate::bus::RAMAdapterForCPUBus { ram: crate::ram::RamImpl::new(0x800) }),
        );
        cpu_bus.register_device(BusDevice::Ppu);
        cpu_bus.register_device(BusDevice::Cartridge);
        cpu_bus.register_device(BusDevice::Joypad);
        cpu_bus.register_device(BusDevice::Apu);
        cpu_bus.register_device(BusDevice::Dma);
        let mut ppu_bus = BusImpl::new();
        ppu_bus.register_device(BusDevice::PatternTables);
        ppu_bus.register_device(
            BusDevice::NameTables(
                crate::bus::NameTablesAdapterForPpuBus {
                    vram: crate::ram::RamImpl::new(0x1000),
                    mirroring,
                },
            ),
        );
        ppu_bus.register_device(
            BusDevice::Palettes(
                crate::bus::PalettesTablesAdapterForPpuBus { vram: crate::ram::RamImpl::new(0x20) },
            ),
        );
        ppu_bus.register_device(BusDevice::MirrorBus);
        let r = BoardImpl {
            cpu: crate::cpu::CPU::new(),
            cpu_bus,
            ppu_bus,
            ppu: crate::ppu::PpuImpl::new(),
            cartridge,
        };
        proof {
            assert(r@.cpu_bus =~= spec_initial_board(cartridge@).cpu_bus);
            assert(r@.ppu_bus =~= spec_initial_board(cartridge@).ppu_bus);
            assert(r@ =~= spec_initial_board(cartridge@));
        }
        r
    }

    /// Wires and resets: the board is ready to clock when this returns.
    pub fn init(self) -> (r: Result<BoardImpl, EmuError>)
        requires
            board_wf(self@),
        ensures
            match r {
                Ok(b2) => spec_board_reset(self@) == (b2@, Ok::<(), EmuError>(())) && board_wf(
                    b2@,
                ),
                Err(e) => spec_board_reset(self@).1 == Err::<(), EmuError>(e),
            },
    {
        let mut board = self;
        match board.reset() {
            Ok(_) => Ok(board),
            Err(e) => Err(e),
        }
    }

    /// A snapshot of everything observable on the processor's pins.
    pub fn dump_state(&self) -> (r: crate::cpu::CpuState)
        ensures
            r == crate::cpu::spec_dump_state(self@.cpu),
    {
        self.cpu.dump_state()
    }

    /// Sets the program counter directly (debug/boot entry) and clears the
    /// cycle debt.
    pub fn set_reg_pc(&mut self, pc: u16)
        ensures
            final(self)@ == (BoardV {
                cpu: CPU { reg_pc: pc, remaining_cycles: 0, ..old(self)@.cpu },
                ..old(self)@
            }),
    {
        self.cpu.set_reg_pc(pc);
    }

    /// Adds cycles to the processor's debt; a co-scheduled device uses
    /// this to stall it.
    pub fn increase_cycles(&mut self, cycles: u64)
        ensures
            final(self)@ == (BoardV {
                cpu: CPU {
                    remaining_cycles: w_add64(old(self)@.cpu.remaining_cycles, cycles),
                    ..old(self)@.cpu
                },
                ..old(self)@
            }),
    {
        self.cpu.increase_cycles(cycles);
    }

    /// Latches an interrupt request; one already pending wins.
    pub fn trigger_interrupt(&mut self, interrupt: crate::cpu::Interrupt)
        ensures
            final(self)@ == (BoardV {
                cpu: crate::cpu::spec_trigger_interrupt(old(self)@.cpu, interrupt),
                ..old(self)@
            }),
    {
        self.cpu.trigger_interrupt(interrupt);
    }
}

} // verus!
