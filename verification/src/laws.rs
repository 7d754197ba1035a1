//! The laws the components obey, stated once over the step model and proved
//! for every input: dispatch order on the bus, the indexed-addressing cycle
//! penalty, the DMA stall arithmetic, and the bank-switched mapper's two
//! windows.

use vstd::prelude::*;

use crate::board::{
    board_wf, spec_clock, spec_cpu_bus_read, spec_dma_transfer, spec_get_data_address, BoardV,
};
use crate::bus::{
    spec_bus_read, spec_device_claims, spec_find_claim, spec_local_read, DeviceV,
};
use crate::cpu::{spec_trigger_interrupt, w_add64, Interrupt, CPU};
use crate::mapper::{mapper2_wf, spec_mapper2_read, spec_mapper2_write, Mapper2V};
use crate::opcode::AddressingMode;
use crate::EmuError;

verus! {

/// Registration order is part of the bus contract: when a device registered
/// earlier claims an address, dispatch never reaches a later claimant, so
/// every read and write of that address is routed at or before the earlier
/// device's slot.
pub proof fn lemma_dispatch_order(devs: Seq<DeviceV>, addr: u16, i: int, j: int)
    requires
        0 <= i < j < devs.len(),
        spec_device_claims(devs[i], addr),
    ensures
        spec_find_claim(devs, addr) is Some,
        spec_find_claim(devs, addr)->Some_0 <= i,
        spec_find_claim(devs, addr) != Some(j),
        spec_bus_read(devs, addr) == spec_local_read(
            devs[spec_find_claim(devs, addr)->Some_0],
            addr,
        ),
    decreases devs.len(),
{
    if spec_device_claims(devs[0], addr) {
    } else {
        lemma_dispatch_order(devs.drop_first(), addr, i - 1, j - 1);
    }
}

/// The indexed absolute load's cycle charge: on a step that fetches opcode
/// `0xBD` (load accumulator, absolute indexed by X) and completes, the
/// processor ends the step owing exactly the four base cycles, plus one
/// more exactly when the address computation crossed a page.
#[verifier::rlimit(100)]
pub proof fn lemma_lda_absolute_x_page_cross_cycle(b: BoardV)
    requires
        board_wf(b),
        b.cpu.remaining_cycles == 0,
        b.cpu.pending_interrupt is None,
        spec_cpu_bus_read(b, b.cpu.reg_pc).1 == Ok::<u8, EmuError>(0xBD),
        spec_clock(b).1 is Ok,
    ensures
        ({
            let b1 = spec_cpu_bus_read(b, b.cpu.reg_pc).0;
            let b2 = BoardV { cpu: CPU { mode: AddressingMode::AbsoluteX, ..b1.cpu }, ..b1 };
            let res = spec_get_data_address(b2, AddressingMode::AbsoluteX).1->Ok_0;
            spec_clock(b).0.cpu.remaining_cycles == if res.page_crossed {
                5int
            } else {
                4int
            }
        }),
{
    assert(crate::opcode::spec_get_op(0xBD) == Some(
        crate::opcode::Op {
            instruction: crate::opcode::Instruction::LDA,
            mode: AddressingMode::AbsoluteX,
            cycles: 4,
            increase_cycle_when_cross_page: true,
        },
    ));
    let b1 = spec_cpu_bus_read(b, b.cpu.reg_pc).0;
    crate::board::lemma_cpu_bus_read_frame(b, b.cpu.reg_pc);
    let b2 = BoardV { cpu: CPU { mode: AddressingMode::AbsoluteX, ..b1.cpu }, ..b1 };
    let (b3, r3) = spec_get_data_address(b2, AddressingMode::AbsoluteX);
    let res = r3->Ok_0;
    let pc1 = crate::cpu::w_add16(b2.cpu.reg_pc, 1);
    crate::board::lemma_cpu_bus_read_frame(b2, pc1);
    let bmid = spec_cpu_bus_read(b2, pc1).0;
    crate::board::lemma_cpu_bus_read_frame(bmid, crate::cpu::w_add16(pc1, 1));
    let extra: u64 = if res.page_crossed {
        1
    } else {
        0
    };
    let b4 = BoardV {
        cpu: CPU {
            data_address: res.address,
            reg_pc: crate::cpu::w_add16(b3.cpu.reg_pc, res.pc_increment),
            remaining_cycles: w_add64(b3.cpu.remaining_cycles, (extra + 4) as u64),
            ..b3.cpu
        },
        ..b3
    };
    crate::board::lemma_cpu_bus_read_frame(b4, b4.cpu.data_address);
}

/// The DMA stall arithmetic: a transfer that completes charges the
/// processor exactly 513 cycles of debt, plus one more exactly when its
/// total-cycle count was odd at the trigger.
pub proof fn lemma_dma_cycle_cost(b: BoardV, page: u8)
    requires
        board_wf(b),
        spec_dma_transfer(b, page).1 is Ok,
    ensures
        spec_dma_transfer(b, page).0.cpu.remaining_cycles == w_add64(
            b.cpu.remaining_cycles,
            if b.cpu.total_cycles % 2 == 1 {
                514
            } else {
                513
            },
        ),
        spec_dma_transfer(b, page).0.cpu.total_cycles == b.cpu.total_cycles,
{
    crate::board::lemma_dma_copy_frame(b, page, 256);
}

/// The bank-switched mapper's two windows: the low window shows the bank
/// the select register names, and the high window always shows the last
/// bank, whatever the select register holds.
pub proof fn lemma_mapper2_windows(m: Mapper2V, addr: u16)
    requires
        mapper2_wf(m),
    ensures
        0x8000 <= addr < 0xC000 ==> spec_mapper2_read(m, addr) == Ok::<u8, EmuError>(
            m.prg[m.prg_bank1 * 0x4000 + (addr - 0x8000)],
        ),
        addr >= 0xC000 ==> spec_mapper2_read(m, addr) == Ok::<u8, EmuError>(
            m.prg[(m.prg_banks - 1) * 0x4000 + (addr - 0xC000)],
        ),
{
}

/// Writing any value at or above `0x8000` selects the low window's bank
/// modulo the bank count and leaves the fixed window's bank alone.
pub proof fn lemma_mapper2_bank_select(m: Mapper2V, addr: u16, value: u8)
    requires
        mapper2_wf(m),
        addr >= 0x8000,
    ensures
        spec_mapper2_write(m, addr, value).1 is Ok,
        spec_mapper2_write(m, addr, value).0.prg_bank1 == value % m.prg_banks,
        spec_mapper2_write(m, addr, value).0.prg_bank2 == m.prg_banks - 1,
        mapper2_wf(spec_mapper2_write(m, addr, value).0),
{
}

/// The step's priority order, first case: while cycle debt is owed, a
/// step drains exactly one cycle and advances the total count; no other
/// state changes and the step cannot fault.
pub proof fn lemma_cycle_debt_step(b: BoardV)
    requires
        b.cpu.remaining_cycles > 0,
    ensures
        spec_clock(b).1 is Ok,
        spec_clock(b).0 == (BoardV {
            cpu: CPU {
                remaining_cycles: (b.cpu.remaining_cycles - 1) as u64,
                total_cycles: w_add64(b.cpu.total_cycles, 1),
                ..b.cpu
            },
            ..b
        }),
{
}

/// At most one interrupt is latched pending at a time: a request arriving
/// while one is pending is dropped and the pending one is kept; a request
/// arriving into an empty latch is kept.
pub proof fn lemma_interrupt_latch(c: CPU, i: Interrupt)
    ensures
        c.pending_interrupt is Some ==> spec_trigger_interrupt(c, i) == c,
        c.pending_interrupt is None ==> spec_trigger_interrupt(c, i) == (CPU {
            pending_interrupt: Some(i),
            ..c
        }),
{
}

} // verus!
