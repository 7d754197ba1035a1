//! The processor register file and the pure part of every instruction: the
//! arithmetic, flag and register transitions that need no bus access.  Each
//! executable method refines a spec function of the same shape, and the board
//! composes those spec functions into its step model.

use vstd::prelude::*;

use crate::opcode::AddressingMode;
use crate::status::{
    get_status_flag, set_status_flag, spec_flags_from_bits, spec_get_status_flag,
    spec_set_status_flag, CpuStatusFlags, StatusFlag,
};

verus! {

/// An external interrupt line.  At most one interrupt is latched pending at a
/// time; a request arriving while one is pending is dropped.
#[derive(Clone, Copy, Debug, PartialEq, Eq, Structural)]
pub enum Interrupt {
    Nmi,
    Reset,
    Irq,
}

/// The register file, the cycle counters and the per-instruction decode
/// scratch (resolved operand address and addressing mode).
#[derive(Clone, Copy, Debug)]
pub struct CPU {
    pub reg_a: u8,
    pub reg_x: u8,
    pub reg_y: u8,
    pub reg_sp: u8,
    pub reg_pc: u16,
    pub reg_status: u8,
    /// Cycles still owed for the in-flight instruction.
    pub remaining_cycles: u64,
    /// Monotonically increasing total cycle count.
    pub total_cycles: u64,
    /// Operand address resolved for the instruction being executed.
    pub data_address: u16,
    /// Addressing mode of the instruction being executed.
    pub mode: AddressingMode,
    /// The latched pending interrupt, if any.
    pub pending_interrupt: Option<Interrupt>,
}

/// A snapshot of everything observable on the processor's external pins.
#[derive(Clone, Copy, Debug, PartialEq, Eq, Structural)]
pub struct CpuState {
    pub total_cycles: u64,
    pub remaining_cycles: u64,
    pub reg_a: u8,
    pub reg_x: u8,
    pub reg_y: u8,
    pub reg_sp: u8,
    pub reg_pc: u16,
    pub reg_status: CpuStatusFlags,
}

/// 16-bit add with wrap-around, as the address lines do.
pub open spec fn w_add16(a: u16, b: u16) -> u16 {
    if a + b > 0xFFFF {
        (a + b - 0x10000) as u16
    } else {
        (a + b) as u16
    }
}

/// 16-bit subtract with wrap-around.
pub open spec fn w_sub16(a: u16, b: u16) -> u16 {
    if a - b < 0 {
        (a - b + 0x10000) as u16
    } else {
        (a - b) as u16
    }
}

/// 8-bit add with wrap-around.
pub open spec fn w_add8(a: u8, b: u8) -> u8 {
    if a + b > 0xFF {
        (a + b - 0x100) as u8
    } else {
        (a + b) as u8
    }
}

/// 64-bit add with wrap-around; the cycle counters never come near the wrap
/// in any reachable state, but the model stays total.
pub open spec fn w_add64(a: u64, b: u64) -> u64 {
    if a + b > 0xFFFF_FFFF_FFFF_FFFF {
        (a + b - 0x1_0000_0000_0000_0000) as u64
    } else {
        (a + b) as u64
    }
}

/// 8-bit subtract with wrap-around.
pub open spec fn w_sub8(a: u8, b: u8) -> u8 {
    if a - b < 0 {
        (a - b + 0x100) as u8
    } else {
        (a - b) as u8
    }
}

/// The status byte with zero and negative updated from a result byte: zero
/// iff the result is 0, negative iff its bit 7 is set.
pub open spec fn spec_zn(status: u8, result: u8) -> u8 {
    spec_set_status_flag(
        spec_set_status_flag(status, StatusFlag::Zero, result == 0),
        StatusFlag::Negative,
        result >> 7 & 1 != 0,
    )
}

pub open spec fn spec_initial_cpu() -> CPU {
    CPU {
        reg_a: 0,
        reg_x: 0,
        reg_y: 0,
        reg_sp: 0xFD,
        reg_pc: 0xFFFC,
        reg_status: 0x24,
        remaining_cycles: 7,
        total_cycles: 0,
        data_address: 0,
        mode: AddressingMode::Implied,
        pending_interrupt: None,
    }
}

impl CPU {
    /// The power-on state: stack pointer `0xFD`, status `0x24`, seven cycles
    /// owed, program counter at the reset vector address.
    pub fn new() -> (r: CPU)
        ensures
            r == spec_initial_cpu(),
    {
        CPU {
            reg_a: 0,
            reg_x: 0,
            reg_y: 0,
            reg_sp: 0xFD,
            reg_pc: 0xFFFC,
            reg_status: 0x24,
            remaining_cycles: 7,
            total_cycles: 0,
            data_address: 0,
            mode: AddressingMode::Implied,
            pending_interrupt: None,
        }
    }

    /// Everything a caller can observe of the processor.
    pub fn dump_state(&self) -> (r: CpuState)
        ensures
            r == spec_dump_state(*self),
    {
        CpuState {
            total_cycles: self.total_cycles,
            remaining_cycles: self.remaining_cycles,
            reg_a: self.reg_a,
            reg_x: self.reg_x,
            reg_y: self.reg_y,
            reg_sp: self.reg_sp,
            reg_pc: self.reg_pc,
            reg_status: CpuStatusFlags::from_bits(self.reg_status),
        }
    }

    /// Sets the program counter directly (debug/boot entry) and clears the
    /// cycle debt.
    pub fn set_reg_pc(&mut self, pc: u16)
        ensures
            *final(self) == (CPU { reg_pc: pc, remaining_cycles: 0, ..*old(self) }),
    {
        self.reg_pc = pc;
        self.remaining_cycles = 0;
    }

    /// Latches an interrupt request.  A request arriving while one is
    /// already pending is dropped, as the real hardware drops it.
    pub fn trigger_interrupt(&mut self, interrupt: Interrupt)
        ensures
            *final(self) == spec_trigger_interrupt(*old(self), interrupt),
    {
        if self.pending_interrupt.is_none() {
            self.pending_interrupt = Some(interrupt);
        }
    }

    /// Returns the registers to their reset values: stack pointer `0xFD`,
    /// status `0x24`, the program counter loaded from the reset vector,
    /// and seven cycles owed.  The data registers are left as they were,
    /// as the silicon leaves them.
    pub fn reset(&mut self, vector: u16)
        ensures
            *final(self) == (CPU {
                reg_sp: 0xFD,
                reg_status: 0x24,
                reg_pc: vector,
                remaining_cycles: 7,
                ..*old(self)
            }),
    {
        self.reg_sp = 0xFD;
        self.reg_status = 0x24;
        self.reg_pc = vector;
        self.remaining_cycles = 7;
    }

    /// Adds cycles to the debt the processor must drain before its next
    /// instruction; the DMA stall unit charges its penalty through this.
    pub fn increase_cycles(&mut self, cycles: u64)
        ensures
            *final(self) == (CPU {
                remaining_cycles: w_add64(old(self).remaining_cycles, cycles),
                ..*old(self)
            }),
    {
        self.remaining_cycles = self.remaining_cycles.wrapping_add(cycles);
    }

    /// The maskable-interrupt pin: latches an interrupt request.
    pub fn irq(&mut self)
        ensures
            *final(self) == spec_trigger_interrupt(*old(self), Interrupt::Irq),
    {
        self.trigger_interrupt(Interrupt::Irq);
    }

    pub fn get_flag(&self, flag: StatusFlag) -> (r: bool)
        ensures
            r == spec_get_status_flag(self.reg_status, flag),
    {
        get_status_flag(self.reg_status, flag)
    }

    pub fn set_flag(&mut self, flag: StatusFlag, value: bool)
        ensures
            *final(self) == (CPU {
                reg_status: spec_set_status_flag(old(self).reg_status, flag, value),
                ..*old(self)
            }),
    {
        self.reg_status = set_status_flag(self.reg_status, flag, value);
    }

    /// Updates the zero and negative flags from a result byte.
    pub fn set_zn(&mut self, result: u8)
        ensures
            *final(self) == (CPU { reg_status: spec_zn(old(self).reg_status, result), ..*old(self) }),
    {
        self.set_flag(StatusFlag::Zero, result == 0);
        self.set_flag(StatusFlag::Negative, result >> 7 & 1 != 0);
    }
}

pub open spec fn spec_dump_state(c: CPU) -> CpuState {
    CpuState {
        total_cycles: c.total_cycles,
        remaining_cycles: c.remaining_cycles,
        reg_a: c.reg_a,
        reg_x: c.reg_x,
        reg_y: c.reg_y,
        reg_sp: c.reg_sp,
        reg_pc: c.reg_pc,
        reg_status: spec_flags_from_bits(c.reg_status),
    }
}

pub open spec fn spec_trigger_interrupt(c: CPU, interrupt: Interrupt) -> CPU {
    if c.pending_interrupt is None {
        CPU { pending_interrupt: Some(interrupt), ..c }
    } else {
        c
    }
}

// The pure state transition of every instruction that needs no bus access,
// and the value/flag parts of the read-modify-write instructions.  Each spec
// function is the mathematical meaning; the executable method below it is
// proved to match.
/// Carry flag as the 0/1 summand the adder sees.
pub open spec fn spec_carry_in(c: CPU) -> int {
    if spec_get_status_flag(c.reg_status, StatusFlag::Carry) {
        1
    } else {
        0
    }
}

/// Add with carry: `A + M + C`.  Carry means the unsigned sum left the byte;
/// overflow uses the XOR-of-sign-bits identity.
pub open spec fn cpu_adc(c: CPU, m: u8) -> CPU {
    let sum = c.reg_a + m + spec_carry_in(c);
    let res = (sum % 0x100) as u8;
    let s = spec_set_status_flag(
        c.reg_status,
        StatusFlag::Overflow,
        ((res ^ c.reg_a) & 0x80 != 0) && ((m ^ res) & 0x80 != 0),
    );
    let s = spec_set_status_flag(s, StatusFlag::Carry, sum > 0xFF);
    let s = spec_set_status_flag(s, StatusFlag::Zero, res == 0);
    let s = spec_set_status_flag(s, StatusFlag::Negative, res >> 7 & 1 != 0);
    CPU { reg_a: res, reg_status: s, ..c }
}

/// Subtract with borrow: `A - M - (1 - C)`.  Carry set means no borrow.
pub open spec fn cpu_sbc(c: CPU, m: u8) -> CPU {
    let t = c.reg_a - m - (1 - spec_carry_in(c));
    let res = (((t + 0x200) % 0x100)) as u8;
    let s = spec_set_status_flag(
        c.reg_status,
        StatusFlag::Overflow,
        ((res ^ c.reg_a) & 0x80 != 0) && ((c.reg_a ^ m) & 0x80 != 0),
    );
    let s = spec_set_status_flag(s, StatusFlag::Carry, t >= 0);
    let s = spec_set_status_flag(s, StatusFlag::Zero, res == 0);
    let s = spec_set_status_flag(s, StatusFlag::Negative, res >> 7 & 1 != 0);
    CPU { reg_a: res, reg_status: s, ..c }
}

pub open spec fn cpu_and(c: CPU, m: u8) -> CPU {
    let res = (c.reg_a & m) as u8;
    CPU { reg_a: res, reg_status: spec_zn(c.reg_status, res), ..c }
}

pub open spec fn cpu_ora(c: CPU, m: u8) -> CPU {
    let res = (c.reg_a | m) as u8;
    CPU { reg_a: res, reg_status: spec_zn(c.reg_status, res), ..c }
}

pub open spec fn cpu_eor(c: CPU, m: u8) -> CPU {
    let res = (c.reg_a ^ m) as u8;
    CPU { reg_a: res, reg_status: spec_zn(c.reg_status, res), ..c }
}

/// Bit test: zero from `A & M`, negative from bit 7 of `M`, overflow from
/// bit 6 of `M`.
pub open spec fn cpu_bit(c: CPU, m: u8) -> CPU {
    let s = spec_set_status_flag(c.reg_status, StatusFlag::Zero, (m & c.reg_a) == 0);
    let s = spec_set_status_flag(s, StatusFlag::Overflow, m >> 6 & 1 != 0);
    let s = spec_set_status_flag(s, StatusFlag::Negative, m >> 7 & 1 != 0);
    CPU { reg_status: s, ..c }
}

/// Compare a register against memory: carry iff `reg >= M` (no borrow),
/// zero and negative from `reg - M`.
pub open spec fn spec_compare(status: u8, reg: u8, m: u8) -> u8 {
    let t = w_sub8(reg, m);
    let s = spec_set_status_flag(status, StatusFlag::Carry, reg >= m);
    let s = spec_set_status_flag(s, StatusFlag::Zero, t == 0);
    spec_set_status_flag(s, StatusFlag::Negative, t >> 7 & 1 != 0)
}

pub open spec fn cpu_cmp(c: CPU, m: u8) -> CPU {
    CPU { reg_status: spec_compare(c.reg_status, c.reg_a, m), ..c }
}

pub open spec fn cpu_cpx(c: CPU, m: u8) -> CPU {
    CPU { reg_status: spec_compare(c.reg_status, c.reg_x, m), ..c }
}

pub open spec fn cpu_cpy(c: CPU, m: u8) -> CPU {
    CPU { reg_status: spec_compare(c.reg_status, c.reg_y, m), ..c }
}

pub open spec fn cpu_lda(c: CPU, m: u8) -> CPU {
    CPU { reg_a: m, reg_status: spec_zn(c.reg_status, m), ..c }
}

pub open spec fn cpu_ldx(c: CPU, m: u8) -> CPU {
    CPU { reg_x: m, reg_status: spec_zn(c.reg_status, m), ..c }
}

pub open spec fn cpu_ldy(c: CPU, m: u8) -> CPU {
    CPU { reg_y: m, reg_status: spec_zn(c.reg_status, m), ..c }
}

/// Undocumented: load accumulator and X together.
pub open spec fn cpu_lax(c: CPU, m: u8) -> CPU {
    CPU { reg_a: m, reg_x: m, reg_status: spec_zn(c.reg_status, m), ..c }
}

/// Undocumented: AND, with carry copied from the result's sign bit.
pub open spec fn cpu_anc(c: CPU, m: u8) -> CPU {
    let res = (c.reg_a & m) as u8;
    let s = spec_set_status_flag(c.reg_status, StatusFlag::Carry, res >> 7 & 1 != 0);
    let s = spec_set_status_flag(s, StatusFlag::Zero, res == 0);
    let s = spec_set_status_flag(s, StatusFlag::Negative, res >> 7 & 1 != 0);
    CPU { reg_a: res, reg_status: s, ..c }
}

/// Undocumented: X is masked by the accumulator and carry is cleared.
pub open spec fn cpu_axs(c: CPU) -> CPU {
    let res = (c.reg_x & c.reg_a) as u8;
    let s = spec_set_status_flag(c.reg_status, StatusFlag::Carry, false);
    let s = spec_set_status_flag(s, StatusFlag::Zero, res == 0);
    let s = spec_set_status_flag(s, StatusFlag::Negative, res >> 7 & 1 != 0);
    CPU { reg_x: res, reg_status: s, ..c }
}

pub open spec fn cpu_inx(c: CPU) -> CPU {
    let res = w_add8(c.reg_x, 1);
    CPU { reg_x: res, reg_status: spec_zn(c.reg_status, res), ..c }
}

pub open spec fn cpu_dex(c: CPU) -> CPU {
    let res = w_sub8(c.reg_x, 1);
    CPU { reg_x: res, reg_status: spec_zn(c.reg_status, res), ..c }
}

pub open spec fn cpu_iny(c: CPU) -> CPU {
    let res = w_add8(c.reg_y, 1);
    CPU { reg_y: res, reg_status: spec_zn(c.reg_status, res), ..c }
}

pub open spec fn cpu_dey(c: CPU) -> CPU {
    let res = w_sub8(c.reg_y, 1);
    CPU { reg_y: res, reg_status: spec_zn(c.reg_status, res), ..c }
}

pub open spec fn cpu_tax(c: CPU) -> CPU {
    CPU { reg_x: c.reg_a, reg_status: spec_zn(c.reg_status, c.reg_a), ..c }
}

pub open spec fn cpu_tay(c: CPU) -> CPU {
    CPU { reg_y: c.reg_a, reg_status: spec_zn(c.reg_status, c.reg_a), ..c }
}

pub open spec fn cpu_tsx(c: CPU) -> CPU {
    CPU { reg_x: c.reg_sp, reg_status: spec_zn(c.reg_status, c.reg_sp), ..c }
}

pub open spec fn cpu_txa(c: CPU) -> CPU {
    CPU { reg_a: c.reg_x, reg_status: spec_zn(c.reg_status, c.reg_x), ..c }
}

pub open spec fn cpu_tya(c: CPU) -> CPU {
    CPU { reg_a: c.reg_y, reg_status: spec_zn(c.reg_status, c.reg_y), ..c }
}

/// Transfer X to the stack pointer; the only transfer that sets no flags.
pub open spec fn cpu_txs(c: CPU) -> CPU {
    CPU { reg_sp: c.reg_x, ..c }
}

pub open spec fn cpu_set_flag(c: CPU, flag: StatusFlag, value: bool) -> CPU {
    CPU { reg_status: spec_set_status_flag(c.reg_status, flag, value), ..c }
}

/// Taken branch: the program counter moves to the resolved target; one extra
/// cycle is owed, two when the target page differs from the page of the
/// advanced program counter plus one.
pub open spec fn cpu_branch_success(c: CPU) -> CPU {
    let extra: u64 = if crate::bits::spec_is_page_crossed(c.data_address, w_add16(c.reg_pc, 1)) {
        2
    } else {
        1
    };
    CPU { remaining_cycles: w_add64(c.remaining_cycles, extra), reg_pc: c.data_address, ..c }
}

/// Conditional branch: taken exactly when `cond` holds.
pub open spec fn cpu_branch(c: CPU, cond: bool) -> CPU {
    if cond {
        cpu_branch_success(c)
    } else {
        c
    }
}

/// Jump: the program counter moves to the resolved address.
pub open spec fn cpu_jmp(c: CPU) -> CPU {
    CPU { reg_pc: c.data_address, ..c }
}

/// Arithmetic shift left: carry takes the bit shifted out; zero and negative
/// follow the result.
pub open spec fn cpu_asl_apply(c: CPU, val: u8) -> (CPU, u8) {
    let out = (val << 1) as u8;
    let s = spec_set_status_flag(c.reg_status, StatusFlag::Carry, val >> 7 & 1 != 0);
    let s = spec_set_status_flag(s, StatusFlag::Zero, out == 0);
    let s = spec_set_status_flag(s, StatusFlag::Negative, out >> 7 & 1 != 0);
    (CPU { reg_status: s, ..c }, out)
}

/// Logical shift right: carry takes the bit shifted out; negative is always
/// cleared.
pub open spec fn cpu_lsr_apply(c: CPU, val: u8) -> (CPU, u8) {
    let out = (val >> 1) as u8;
    let s = spec_set_status_flag(c.reg_status, StatusFlag::Carry, val >> 0 & 1 != 0);
    let s = spec_set_status_flag(s, StatusFlag::Zero, out == 0);
    let s = spec_set_status_flag(s, StatusFlag::Negative, false);
    (CPU { reg_status: s, ..c }, out)
}

/// Rotate left through carry: the old carry enters the vacated bit, carry
/// takes the bit rotated out, and zero and negative follow the result, in
/// the accumulator form and the memory form alike.
pub open spec fn cpu_rol_apply(c: CPU, val: u8, is_acc: bool) -> (CPU, u8) {
    let old_carry: u8 = if spec_get_status_flag(c.reg_status, StatusFlag::Carry) {
        1
    } else {
        0
    };
    let out = ((val << 1) | old_carry) as u8;
    let s = spec_set_status_flag(c.reg_status, StatusFlag::Carry, val >> 7 & 1 != 0);
    let s = spec_set_status_flag(s, StatusFlag::Zero, out == 0);
    let s = spec_set_status_flag(s, StatusFlag::Negative, out >> 7 & 1 != 0);
    if is_acc {
        (CPU { reg_a: out, reg_status: s, ..c }, out)
    } else {
        (CPU { reg_status: s, ..c }, out)
    }
}

/// Rotate right through carry: the old carry enters the vacated bit, carry
/// takes the bit rotated out, and zero and negative follow the result, in
/// the accumulator form and the memory form alike.
pub open spec fn cpu_ror_apply(c: CPU, val: u8, is_acc: bool) -> (CPU, u8) {
    let old_carry: u8 = if spec_get_status_flag(c.reg_status, StatusFlag::Carry) {
        1
    } else {
        0
    };
    let out = ((val >> 1) | (old_carry << 7)) as u8;
    let s = spec_set_status_flag(c.reg_status, StatusFlag::Carry, val >> 0 & 1 != 0);
    let s = spec_set_status_flag(s, StatusFlag::Zero, out == 0);
    let s = spec_set_status_flag(s, StatusFlag::Negative, out >> 7 & 1 != 0);
    if is_acc {
        (CPU { reg_a: out, reg_status: s, ..c }, out)
    } else {
        (CPU { reg_status: s, ..c }, out)
    }
}

/// Increment of a memory byte: the new value with zero/negative updated.
pub open spec fn cpu_inc_apply(c: CPU, val: u8) -> (CPU, u8) {
    let out = w_add8(val, 1);
    (CPU { reg_status: spec_zn(c.reg_status, out), ..c }, out)
}

/// Decrement of a memory byte: the new value with zero/negative updated.
pub open spec fn cpu_dec_apply(c: CPU, val: u8) -> (CPU, u8) {
    let out = w_sub8(val, 1);
    (CPU { reg_status: spec_zn(c.reg_status, out), ..c }, out)
}


impl CPU {
    pub fn op_adc(&mut self, m: u8)
        ensures
            *final(self) == cpu_adc(*old(self), m),
    {
        let carry: u16 = if self.get_flag(StatusFlag::Carry) {
            1
        } else {
            0
        };
        let tmp: u16 = self.reg_a as u16 + m as u16 + carry;
        let res: u8 = (tmp % 0x100) as u8;
        self.set_flag(
            StatusFlag::Overflow,
            ((res ^ self.reg_a) & 0x80 != 0) && ((m ^ res) & 0x80 != 0),
        );
        self.set_flag(StatusFlag::Carry, tmp > 0xFF);
        self.set_flag(StatusFlag::Zero, res == 0);
        self.set_flag(StatusFlag::Negative, res >> 7 & 1 != 0);
        self.reg_a = res;
    }

    pub fn op_sbc(&mut self, m: u8)
        ensures
            *final(self) == cpu_sbc(*old(self), m),
    {
        let carry: i32 = if self.get_flag(StatusFlag::Carry) {
            1
        } else {
            0
        };
        let t: i32 = self.reg_a as i32 - m as i32 - (1 - carry);
        let res: u8 = ((t + 0x200) % 0x100) as u8;
        self.set_flag(
            StatusFlag::Overflow,
            ((res ^ self.reg_a) & 0x80 != 0) && ((self.reg_a ^ m) & 0x80 != 0),
        );
        self.set_flag(StatusFlag::Carry, t >= 0);
        self.set_flag(StatusFlag::Zero, res == 0);
        self.set_flag(StatusFlag::Negative, res >> 7 & 1 != 0);
        self.reg_a = res;
    }

    pub fn op_and(&mut self, m: u8)
        ensures
            *final(self) == cpu_and(*old(self), m),
    {
        self.reg_a = self.reg_a & m;
        let a = self.reg_a;
        self.set_zn(a);
    }

    pub fn op_ora(&mut self, m: u8)
        ensures
            *final(self) == cpu_ora(*old(self), m),
    {
        self.reg_a = self.reg_a | m;
        let a = self.reg_a;
        self.set_zn(a);
    }

    pub fn op_eor(&mut self, m: u8)
        ensures
            *final(self) == cpu_eor(*old(self), m),
    {
        self.reg_a = self.reg_a ^ m;
        let a = self.reg_a;
        self.set_zn(a);
    }

    pub fn op_bit(&mut self, m: u8)
        ensures
            *final(self) == cpu_bit(*old(self), m),
    {
        self.set_flag(StatusFlag::Zero, (m & self.reg_a) == 0);
        self.set_flag(StatusFlag::Overflow, m >> 6 & 1 != 0);
        self.set_flag(StatusFlag::Negative, m >> 7 & 1 != 0);
    }

    fn compare_with(&mut self, reg: u8, m: u8)
        ensures
            *final(self) == (CPU { reg_status: spec_compare(old(self).reg_status, reg, m), ..*old(self) }),
    {
        let t = reg.wrapping_sub(m);
        self.set_flag(StatusFlag::Carry, reg >= m);
        self.set_flag(StatusFlag::Zero, t == 0);
        self.set_flag(StatusFlag::Negative, t >> 7 & 1 != 0);
    }

    pub fn op_cmp(&mut self, m: u8)
        ensures
            *final(self) == cpu_cmp(*old(self), m),
    {
        let reg = self.reg_a;
        self.compare_with(reg, m);
    }

    pub fn op_cpx(&mut self, m: u8)
        ensures
            *final(self) == cpu_cpx(*old(self), m),
    {
        let reg = self.reg_x;
        self.compare_with(reg, m);
    }

    pub fn op_cpy(&mut self, m: u8)
        ensures
            *final(self) == cpu_cpy(*old(self), m),
    {
        let reg = self.reg_y;
        self.compare_with(reg, m);
    }

    pub fn op_lda(&mut self, m: u8)
        ensures
            *final(self) == cpu_lda(*old(self), m),
    {
        self.reg_a = m;
        self.set_zn(m);
    }

    pub fn op_ldx(&mut self, m: u8)
        ensures
            *final(self) == cpu_ldx(*old(self), m),
    {
        self.reg_x = m;
        self.set_zn(m);
    }

    pub fn op_ldy(&mut self, m: u8)
        ensures
            *final(self) == cpu_ldy(*old(self), m),
    {
        self.reg_y = m;
        self.set_zn(m);
    }

    pub fn op_lax(&mut self, m: u8)
        ensures
            *final(self) == cpu_lax(*old(self), m),
    {
        self.reg_a = m;
        self.reg_x = m;
        self.set_zn(m);
    }

    pub fn op_anc(&mut self, m: u8)
        ensures
            *final(self) == cpu_anc(*old(self), m),
    {
        self.reg_a = self.reg_a & m;
        let res = self.reg_a;
        self.set_flag(StatusFlag::Carry, res >> 7 & 1 != 0);
        self.set_flag(StatusFlag::Zero, res == 0);
        self.set_flag(StatusFlag::Negative, res >> 7 & 1 != 0);
    }

    pub fn op_axs(&mut self)
        ensures
            *final(self) == cpu_axs(*old(self)),
    {
        self.reg_x = self.reg_x & self.reg_a;
        let res = self.reg_x;
        self.set_flag(StatusFlag::Carry, false);
        self.set_flag(StatusFlag::Zero, res == 0);
        self.set_flag(StatusFlag::Negative, res >> 7 & 1 != 0);
    }

    pub fn op_inx(&mut self)
        ensures
            *final(self) == cpu_inx(*old(self)),
    {
        self.reg_x = self.reg_x.wrapping_add(1);
        let r = self.reg_x;
        self.set_zn(r);
    }

    pub fn op_dex(&mut self)
        ensures
            *final(self) == cpu_dex(*old(self)),
    {
        self.reg_x = self.reg_x.wrapping_sub(1);
        let r = self.reg_x;
        self.set_zn(r);
    }

    pub fn op_iny(&mut self)
        ensures
            *final(self) == cpu_iny(*old(self)),
    {
        self.reg_y = self.reg_y.wrapping_add(1);
        let r = self.reg_y;
        self.set_zn(r);
    }

    pub fn op_dey(&mut self)
        ensures
            *final(self) == cpu_dey(*old(self)),
    {
        self.reg_y = self.reg_y.wrapping_sub(1);
        let r = self.reg_y;
        self.set_zn(r);
    }

    pub fn op_tax(&mut self)
        ensures
            *final(self) == cpu_tax(*old(self)),
    {
        self.reg_x = self.reg_a;
        let r = self.reg_x;
        self.set_zn(r);
    }

    pub fn op_tay(&mut self)
        ensures
            *final(self) == cpu_tay(*old(self)),
    {
        self.reg_y = self.reg_a;
        let r = self.reg_y;
        self.set_zn(r);
    }

    pub fn op_tsx(&mut self)
        ensures
            *final(self) == cpu_tsx(*old(self)),
    {
        self.reg_x = self.reg_sp;
        let r = self.reg_x;
        self.set_zn(r);
    }

    pub fn op_txa(&mut self)
        ensures
            *final(self) == cpu_txa(*old(self)),
    {
        self.reg_a = self.reg_x;
        let r = self.reg_a;
        self.set_zn(r);
    }

    pub fn op_tya(&mut self)
        ensures
            *final(self) == cpu_tya(*old(self)),
    {
        self.reg_a = self.reg_y;
        let r = self.reg_a;
        self.set_zn(r);
    }

    pub fn op_txs(&mut self)
        ensures
            *final(self) == cpu_txs(*old(self)),
    {
        self.reg_sp = self.reg_x;
    }

    /// Conditional branch on a flag value already read out.
    pub fn branch_on(&mut self, cond: bool)
        ensures
            *final(self) == cpu_branch(*old(self), cond),
    {
        if cond {
            let extra: u64 = if crate::bits::is_page_crossed(
                self.data_address,
                self.reg_pc.wrapping_add(1),
            ) {
                2
            } else {
                1
            };
            self.remaining_cycles = self.remaining_cycles.wrapping_add(extra);
            self.reg_pc = self.data_address;
        }
    }

    pub fn op_jmp(&mut self)
        ensures
            *final(self) == cpu_jmp(*old(self)),
    {
        self.reg_pc = self.data_address;
    }

    pub fn apply_asl(&mut self, val: u8) -> (out: u8)
        ensures
            (*final(self), out) == cpu_asl_apply(*old(self), val),
    {
        self.set_flag(StatusFlag::Carry, val >> 7 & 1 != 0);
        let out = val << 1;
        self.set_flag(StatusFlag::Zero, out == 0);
        self.set_flag(StatusFlag::Negative, out >> 7 & 1 != 0);
        out
    }

    pub fn apply_lsr(&mut self, val: u8) -> (out: u8)
        ensures
            (*final(self), out) == cpu_lsr_apply(*old(self), val),
    {
        self.set_flag(StatusFlag::Carry, val >> 0 & 1 != 0);
        let out = val >> 1;
        self.set_flag(StatusFlag::Zero, out == 0);
        self.set_flag(StatusFlag::Negative, false);
        out
    }

    pub fn apply_rol(&mut self, val: u8, is_acc: bool) -> (out: u8)
        ensures
            (*final(self), out) == cpu_rol_apply(*old(self), val, is_acc),
    {
        let old_carry: u8 = if self.get_flag(StatusFlag::Carry) {
            1
        } else {
            0
        };
        self.set_flag(StatusFlag::Carry, val >> 7 & 1 != 0);
        let out = (val << 1) | old_carry;
        if is_acc {
            self.reg_a = out;
        }
        self.set_flag(StatusFlag::Zero, out == 0);
        self.set_flag(StatusFlag::Negative, out >> 7 & 1 != 0);
        out
    }

    pub fn apply_ror(&mut self, val: u8, is_acc: bool) -> (out: u8)
        ensures
            (*final(self), out) == cpu_ror_apply(*old(self), val, is_acc),
    {
        let old_carry: u8 = if self.get_flag(StatusFlag::Carry) {
            1
        } else {
            0
        };
        self.set_flag(StatusFlag::Carry, val >> 0 & 1 != 0);
        let out = (val >> 1) | (old_carry << 7);
        if is_acc {
            self.reg_a = out;
        }
        self.set_flag(StatusFlag::Zero, out == 0);
        self.set_flag(StatusFlag::Negative, out >> 7 & 1 != 0);
        out
    }

    pub fn apply_inc(&mut self, val: u8) -> (out: u8)
        ensures
            (*final(self), out) == cpu_inc_apply(*old(self), val),
    {
        let out = val.wrapping_add(1);
        self.set_zn(out);
        out
    }

    pub fn apply_dec(&mut self, val: u8) -> (out: u8)
        ensures
            (*final(self), out) == cpu_dec_apply(*old(self), val),
    {
        let out = val.wrapping_sub(1);
        self.set_zn(out);
        out
    }
}

} // verus!
