//! The instruction set: one transition per instruction tag, each proved
//! against its spec function, and the dispatcher the fetch step calls.  The
//! undocumented composites are exact back-to-back runs of two documented
//! primitives against the same resolved address, so their flags are
//! whatever the second primitive leaves.

use vstd::prelude::*;

use crate::board::{
    board_wf, spec_cpu_bus_read, spec_cpu_bus_read_u16, spec_cpu_bus_write, spec_pop_stack,
    spec_pop_stack_u16, spec_push_stack, spec_push_stack_u16, BoardImpl, BoardV,
};
use crate::cpu::{
    cpu_adc, cpu_anc, cpu_and, cpu_asl_apply, cpu_axs, cpu_bit, cpu_branch, cpu_cmp, cpu_cpx,
    cpu_cpy, cpu_dec_apply, cpu_dex, cpu_dey, cpu_eor, cpu_inc_apply, cpu_inx, cpu_iny, cpu_jmp,
    cpu_lax, cpu_lda, cpu_ldx, cpu_ldy, cpu_lsr_apply, cpu_ora, cpu_rol_apply, cpu_ror_apply,
    cpu_sbc, cpu_set_flag, cpu_tax, cpu_tay, cpu_tsx, cpu_txa, cpu_txs, cpu_tya, w_add16, w_sub16,
    CPU,
};
use crate::opcode::{AddressingMode, Instruction};
use crate::status::{spec_get_status_flag, spec_set_status_flag, StatusFlag};
use crate::EmuError;

verus! {

/// The operand read every memory-operand instruction starts with.
pub open spec fn spec_read_operand(b: BoardV) -> (BoardV, Result<u8, EmuError>) {
    spec_cpu_bus_read(b, b.cpu.data_address)
}


pub open spec fn spec_instr_adc(b: BoardV) -> (BoardV, Result<(), EmuError>) {
    let (b1, r1) = spec_read_operand(b);
    match r1 {
        Err(e) => (b1, Err(e)),
        Ok(m) => (BoardV { cpu: cpu_adc(b1.cpu, m), ..b1 }, Ok(())),
    }
}

pub open spec fn spec_instr_and(b: BoardV) -> (BoardV, Result<(), EmuError>) {
    let (b1, r1) = spec_read_operand(b);
    match r1 {
        Err(e) => (b1, Err(e)),
        Ok(m) => (BoardV { cpu: cpu_and(b1.cpu, m), ..b1 }, Ok(())),
    }
}

pub open spec fn spec_instr_bit(b: BoardV) -> (BoardV, Result<(), EmuError>) {
    let (b1, r1) = spec_read_operand(b);
    match r1 {
        Err(e) => (b1, Err(e)),
        Ok(m) => (BoardV { cpu: cpu_bit(b1.cpu, m), ..b1 }, Ok(())),
    }
}

pub open spec fn spec_instr_cmp(b: BoardV) -> (BoardV, Result<(), EmuError>) {
    let (b1, r1) = spec_read_operand(b);
    match r1 {
        Err(e) => (b1, Err(e)),
        Ok(m) => (BoardV { cpu: cpu_cmp(b1.cpu, m), ..b1 }, Ok(())),
    }
}

pub open spec fn spec_instr_cpx(b: BoardV) -> (BoardV, Result<(), EmuError>) {
    let (b1, r1) = spec_read_operand(b);
    match r1 {
        Err(e) => (b1, Err(e)),
        Ok(m) => (BoardV { cpu: cpu_cpx(b1.cpu, m), ..b1 }, Ok(())),
    }
}

pub open spec fn spec_instr_cpy(b: BoardV) -> (BoardV, Result<(), EmuError>) {
    let (b1, r1) = spec_read_operand(b);
    match r1 {
        Err(e) => (b1, Err(e)),
        Ok(m) => (BoardV { cpu: cpu_cpy(b1.cpu, m), ..b1 }, Ok(())),
    }
}

pub open spec fn spec_instr_eor(b: BoardV) -> (BoardV, Result<(), EmuError>) {
    let (b1, r1) = spec_read_operand(b);
    match r1 {
        Err(e) => (b1, Err(e)),
        Ok(m) => (BoardV { cpu: cpu_eor(b1.cpu, m), ..b1 }, Ok(())),
    }
}

pub open spec fn spec_instr_lda(b: BoardV) -> (BoardV, Result<(), EmuError>) {
    let (b1, r1) = spec_read_operand(b);
    match r1 {
        Err(e) => (b1, Err(e)),
        Ok(m) => (BoardV { cpu: cpu_lda(b1.cpu, m), ..b1 }, Ok(())),
    }
}

pub open spec fn spec_instr_ldx(b: BoardV) -> (BoardV, Result<(), EmuError>) {
    let (b1, r1) = spec_read_operand(b);
    match r1 {
        Err(e) => (b1, Err(e)),
        Ok(m) => (BoardV { cpu: cpu_ldx(b1.cpu, m), ..b1 }, Ok(())),
    }
}

pub open spec fn spec_instr_ldy(b: BoardV) -> (BoardV, Result<(), EmuError>) {
    let (b1, r1) = spec_read_operand(b);
    match r1 {
        Err(e) => (b1, Err(e)),
        Ok(m) => (BoardV { cpu: cpu_ldy(b1.cpu, m), ..b1 }, Ok(())),
    }
}

pub open spec fn spec_instr_ora(b: BoardV) -> (BoardV, Result<(), EmuError>) {
    let (b1, r1) = spec_read_operand(b);
    match r1 {
        Err(e) => (b1, Err(e)),
        Ok(m) => (BoardV { cpu: cpu_ora(b1.cpu, m), ..b1 }, Ok(())),
    }
}

pub open spec fn spec_instr_sbc(b: BoardV) -> (BoardV, Result<(), EmuError>) {
    let (b1, r1) = spec_read_operand(b);
    match r1 {
        Err(e) => (b1, Err(e)),
        Ok(m) => (BoardV { cpu: cpu_sbc(b1.cpu, m), ..b1 }, Ok(())),
    }
}

pub open spec fn spec_instr_lax(b: BoardV) -> (BoardV, Result<(), EmuError>) {
    let (b1, r1) = spec_read_operand(b);
    match r1 {
        Err(e) => (b1, Err(e)),
        Ok(m) => (BoardV { cpu: cpu_lax(b1.cpu, m), ..b1 }, Ok(())),
    }
}

pub open spec fn spec_instr_anc(b: BoardV) -> (BoardV, Result<(), EmuError>) {
    let (b1, r1) = spec_read_operand(b);
    match r1 {
        Err(e) => (b1, Err(e)),
        Ok(m) => (BoardV { cpu: cpu_anc(b1.cpu, m), ..b1 }, Ok(())),
    }
}

pub open spec fn spec_instr_clc(b: BoardV) -> (BoardV, Result<(), EmuError>) {
    (BoardV { cpu: cpu_set_flag(b.cpu, StatusFlag::Carry, false), ..b }, Ok(()))
}

pub open spec fn spec_instr_sec(b: BoardV) -> (BoardV, Result<(), EmuError>) {
    (BoardV { cpu: cpu_set_flag(b.cpu, StatusFlag::Carry, true), ..b }, Ok(()))
}

pub open spec fn spec_instr_cld(b: BoardV) -> (BoardV, Result<(), EmuError>) {
    (BoardV { cpu: cpu_set_flag(b.cpu, StatusFlag::DecimalMode, false), ..b }, Ok(()))
}

pub open spec fn spec_instr_sed(b: BoardV) -> (BoardV, Result<(), EmuError>) {
    (BoardV { cpu: cpu_set_flag(b.cpu, StatusFlag::DecimalMode, true), ..b }, Ok(()))
}

pub open spec fn spec_instr_cli(b: BoardV) -> (BoardV, Result<(), EmuError>) {
    (BoardV { cpu: cpu_set_flag(b.cpu, StatusFlag::InterruptDisable, false), ..b }, Ok(()))
}

pub open spec fn spec_instr_sei(b: BoardV) -> (BoardV, Result<(), EmuError>) {
    (BoardV { cpu: cpu_set_flag(b.cpu, StatusFlag::InterruptDisable, true), ..b }, Ok(()))
}

pub open spec fn spec_instr_clv(b: BoardV) -> (BoardV, Result<(), EmuError>) {
    (BoardV { cpu: cpu_set_flag(b.cpu, StatusFlag::Overflow, false), ..b }, Ok(()))
}

pub open spec fn spec_instr_dex(b: BoardV) -> (BoardV, Result<(), EmuError>) {
    (BoardV { cpu: cpu_dex(b.cpu), ..b }, Ok(()))
}

pub open spec fn spec_instr_dey(b: BoardV) -> (BoardV, Result<(), EmuError>) {
    (BoardV { cpu: cpu_dey(b.cpu), ..b }, Ok(()))
}

pub open spec fn spec_instr_inx(b: BoardV) -> (BoardV, Result<(), EmuError>) {
    (BoardV { cpu: cpu_inx(b.cpu), ..b }, Ok(()))
}

pub open spec fn spec_instr_iny(b: BoardV) -> (BoardV, Result<(), EmuError>) {
    (BoardV { cpu: cpu_iny(b.cpu), ..b }, Ok(()))
}

pub open spec fn spec_instr_tax(b: BoardV) -> (BoardV, Result<(), EmuError>) {
    (BoardV { cpu: cpu_tax(b.cpu), ..b }, Ok(()))
}

pub open spec fn spec_instr_tay(b: BoardV) -> (BoardV, Result<(), EmuError>) {
    (BoardV { cpu: cpu_tay(b.cpu), ..b }, Ok(()))
}

pub open spec fn spec_instr_tsx(b: BoardV) -> (BoardV, Result<(), EmuError>) {
    (BoardV { cpu: cpu_tsx(b.cpu), ..b }, Ok(()))
}

pub open spec fn spec_instr_txa(b: BoardV) -> (BoardV, Result<(), EmuError>) {
    (BoardV { cpu: cpu_txa(b.cpu), ..b }, Ok(()))
}

pub open spec fn spec_instr_txs(b: BoardV) -> (BoardV, Result<(), EmuError>) {
    (BoardV { cpu: cpu_txs(b.cpu), ..b }, Ok(()))
}

pub open spec fn spec_instr_tya(b: BoardV) -> (BoardV, Result<(), EmuError>) {
    (BoardV { cpu: cpu_tya(b.cpu), ..b }, Ok(()))
}

pub open spec fn spec_instr_axs(b: BoardV) -> (BoardV, Result<(), EmuError>) {
    (BoardV { cpu: cpu_axs(b.cpu), ..b }, Ok(()))
}

pub open spec fn spec_instr_jmp(b: BoardV) -> (BoardV, Result<(), EmuError>) {
    (BoardV { cpu: cpu_jmp(b.cpu), ..b }, Ok(()))
}

pub open spec fn spec_instr_nop(b: BoardV) -> (BoardV, Result<(), EmuError>) {
    (b, Ok(()))
}

pub open spec fn spec_instr_skb(b: BoardV) -> (BoardV, Result<(), EmuError>) {
    (b, Ok(()))
}

pub open spec fn spec_instr_ign(b: BoardV) -> (BoardV, Result<(), EmuError>) {
    (b, Ok(()))
}

pub open spec fn spec_instr_bcc(b: BoardV) -> (BoardV, Result<(), EmuError>) {
    (BoardV { cpu: cpu_branch(b.cpu, !spec_get_status_flag(b.cpu.reg_status, StatusFlag::Carry)), ..b }, Ok(()))
}

pub open spec fn spec_instr_bcs(b: BoardV) -> (BoardV, Result<(), EmuError>) {
    (BoardV { cpu: cpu_branch(b.cpu, spec_get_status_flag(b.cpu.reg_status, StatusFlag::Carry)), ..b }, Ok(()))
}

pub open spec fn spec_instr_beq(b: BoardV) -> (BoardV, Result<(), EmuError>) {
    (BoardV { cpu: cpu_branch(b.cpu, spec_get_status_flag(b.cpu.reg_status, StatusFlag::Zero)), ..b }, Ok(()))
}

pub open spec fn spec_instr_bne(b: BoardV) -> (BoardV, Result<(), EmuError>) {
    (BoardV { cpu: cpu_branch(b.cpu, !spec_get_status_flag(b.cpu.reg_status, StatusFlag::Zero)), ..b }, Ok(()))
}

pub open spec fn spec_instr_bmi(b: BoardV) -> (BoardV, Result<(), EmuError>) {
    (BoardV { cpu: cpu_branch(b.cpu, spec_get_status_flag(b.cpu.reg_status, StatusFlag::Negative)), ..b }, Ok(()))
}

pub open spec fn spec_instr_bpl(b: BoardV) -> (BoardV, Result<(), EmuError>) {
    (BoardV { cpu: cpu_branch(b.cpu, !spec_get_status_flag(b.cpu.reg_status, StatusFlag::Negative)), ..b }, Ok(()))
}

pub open spec fn spec_instr_bvs(b: BoardV) -> (BoardV, Result<(), EmuError>) {
    (BoardV { cpu: cpu_branch(b.cpu, spec_get_status_flag(b.cpu.reg_status, StatusFlag::Overflow)), ..b }, Ok(()))
}

pub open spec fn spec_instr_bvc(b: BoardV) -> (BoardV, Result<(), EmuError>) {
    (BoardV { cpu: cpu_branch(b.cpu, !spec_get_status_flag(b.cpu.reg_status, StatusFlag::Overflow)), ..b }, Ok(()))
}

pub open spec fn spec_instr_asl(b: BoardV) -> (BoardV, Result<(), EmuError>) {
    if b.cpu.mode is Accumulator {
        let (c2, out) = cpu_asl_apply(b.cpu, b.cpu.reg_a);
        (BoardV { cpu: CPU { reg_a: out, ..c2 }, ..b }, Ok(()))
    } else {
        let da = b.cpu.data_address;
        let (b1, r1) = spec_read_operand(b);
        match r1 {
            Err(e) => (b1, Err(e)),
            Ok(m) => {
                let (c2, out) = cpu_asl_apply(b1.cpu, m);
                spec_cpu_bus_write(BoardV { cpu: c2, ..b1 }, da, out)
            },
        }
    }
}

pub open spec fn spec_instr_lsr(b: BoardV) -> (BoardV, Result<(), EmuError>) {
    if b.cpu.mode is Accumulator {
        let (c2, out) = cpu_lsr_apply(b.cpu, b.cpu.reg_a);
        (BoardV { cpu: CPU { reg_a: out, ..c2 }, ..b }, Ok(()))
    } else {
        let da = b.cpu.data_address;
        let (b1, r1) = spec_read_operand(b);
        match r1 {
            Err(e) => (b1, Err(e)),
            Ok(m) => {
                let (c2, out) = cpu_lsr_apply(b1.cpu, m);
                spec_cpu_bus_write(BoardV { cpu: c2, ..b1 }, da, out)
            },
        }
    }
}

pub open spec fn spec_instr_rol(b: BoardV) -> (BoardV, Result<(), EmuError>) {
    if b.cpu.mode is Accumulator {
        let (c2, out) = cpu_rol_apply(b.cpu, b.cpu.reg_a, true);
        (BoardV { cpu: c2, ..b }, Ok(()))
    } else {
        let da = b.cpu.data_address;
        let (b1, r1) = spec_read_operand(b);
        match r1 {
            Err(e) => (b1, Err(e)),
            Ok(m) => {
                let (c2, out) = cpu_rol_apply(b1.cpu, m, false);
                spec_cpu_bus_write(BoardV { cpu: c2, ..b1 }, da, out)
            },
        }
    }
}

pub open spec fn spec_instr_ror(b: BoardV) -> (BoardV, Result<(), EmuError>) {
    if b.cpu.mode is Accumulator {
        let (c2, out) = cpu_ror_apply(b.cpu, b.cpu.reg_a, true);
        (BoardV { cpu: c2, ..b }, Ok(()))
    } else {
        let da = b.cpu.data_address;
        let (b1, r1) = spec_read_operand(b);
        match r1 {
            Err(e) => (b1, Err(e)),
            Ok(m) => {
                let (c2, out) = cpu_ror_apply(b1.cpu, m, false);
                spec_cpu_bus_write(BoardV { cpu: c2, ..b1 }, da, out)
            },
        }
    }
}

pub open spec fn spec_instr_inc(b: BoardV) -> (BoardV, Result<(), EmuError>) {
    let da = b.cpu.data_address;
    let (b1, r1) = spec_read_operand(b);
    match r1 {
        Err(e) => (b1, Err(e)),
        Ok(m) => {
            let (c2, out) = cpu_inc_apply(b1.cpu, m);
            spec_cpu_bus_write(BoardV { cpu: c2, ..b1 }, da, out)
        },
    }
}

pub open spec fn spec_instr_dec(b: BoardV) -> (BoardV, Result<(), EmuError>) {
    let da = b.cpu.data_address;
    let (b1, r1) = spec_read_operand(b);
    match r1 {
        Err(e) => (b1, Err(e)),
        Ok(m) => {
            let (c2, out) = cpu_dec_apply(b1.cpu, m);
            spec_cpu_bus_write(BoardV { cpu: c2, ..b1 }, da, out)
        },
    }
}

pub open spec fn spec_instr_sta(b: BoardV) -> (BoardV, Result<(), EmuError>) {
    spec_cpu_bus_write(b, b.cpu.data_address, b.cpu.reg_a)
}

pub open spec fn spec_instr_stx(b: BoardV) -> (BoardV, Result<(), EmuError>) {
    spec_cpu_bus_write(b, b.cpu.data_address, b.cpu.reg_x)
}

pub open spec fn spec_instr_sty(b: BoardV) -> (BoardV, Result<(), EmuError>) {
    spec_cpu_bus_write(b, b.cpu.data_address, b.cpu.reg_y)
}

pub open spec fn spec_instr_sax(b: BoardV) -> (BoardV, Result<(), EmuError>) {
    spec_cpu_bus_write(b, b.cpu.data_address, (b.cpu.reg_x & b.cpu.reg_a) as u8)
}

pub open spec fn spec_instr_pha(b: BoardV) -> (BoardV, Result<(), EmuError>) {
    spec_push_stack(b, b.cpu.reg_a)
}

pub open spec fn spec_instr_php(b: BoardV) -> (BoardV, Result<(), EmuError>) {
    spec_push_stack(b, (b.cpu.reg_status | 0x30) as u8)
}

pub open spec fn spec_instr_pla(b: BoardV) -> (BoardV, Result<(), EmuError>) {
    let (b1, r1) = spec_pop_stack(b);
    match r1 {
        Err(e) => (b1, Err(e)),
        Ok(v) => (BoardV { cpu: cpu_lda(b1.cpu, v), ..b1 }, Ok(())),
    }
}

/// The popped status byte takes effect except for the break and unused
/// bits, which keep their current values.
pub open spec fn spec_status_from_stack(cur: u8, popped: u8) -> u8 {
    spec_set_status_flag(
        spec_set_status_flag(
            popped,
            StatusFlag::BreakCommand,
            spec_get_status_flag(cur, StatusFlag::BreakCommand),
        ),
        StatusFlag::Unused,
        spec_get_status_flag(cur, StatusFlag::Unused),
    )
}

pub open spec fn spec_instr_plp(b: BoardV) -> (BoardV, Result<(), EmuError>) {
    let (b1, r1) = spec_pop_stack(b);
    match r1 {
        Err(e) => (b1, Err(e)),
        Ok(v) => (
            BoardV {
                cpu: CPU { reg_status: spec_status_from_stack(b1.cpu.reg_status, v), ..b1.cpu },
                ..b1
            },
            Ok(()),
        ),
    }
}

pub open spec fn spec_instr_brk(b: BoardV) -> (BoardV, Result<(), EmuError>) {
    let (b1, r1) = spec_push_stack_u16(b, w_add16(b.cpu.reg_pc, 1));
    match r1 {
        Err(e) => (b1, Err(e)),
        Ok(_) => {
            let (b2, r2) = spec_push_stack(b1, b1.cpu.reg_status);
            match r2 {
                Err(e) => (b2, Err(e)),
                Ok(_) => {
                    let c3 = cpu_set_flag(
                        cpu_set_flag(b2.cpu, StatusFlag::InterruptDisable, true),
                        StatusFlag::BreakCommand,
                        true,
                    );
                    let (b4, r4) = spec_cpu_bus_read_u16(BoardV { cpu: c3, ..b2 }, 0xFFFE);
                    match r4 {
                        Err(e) => (b4, Err(e)),
                        Ok(v) => (BoardV { cpu: CPU { reg_pc: v, ..b4.cpu }, ..b4 }, Ok(())),
                    }
                },
            }
        },
    }
}

pub open spec fn spec_instr_jsr(b: BoardV) -> (BoardV, Result<(), EmuError>) {
    let (b1, r1) = spec_push_stack_u16(b, w_sub16(b.cpu.reg_pc, 1));
    match r1 {
        Err(e) => (b1, Err(e)),
        Ok(_) => (BoardV { cpu: CPU { reg_pc: b1.cpu.data_address, ..b1.cpu }, ..b1 }, Ok(())),
    }
}

pub open spec fn spec_instr_rts(b: BoardV) -> (BoardV, Result<(), EmuError>) {
    let (b1, r1) = spec_pop_stack_u16(b);
    match r1 {
        Err(e) => (b1, Err(e)),
        Ok(v) => (BoardV { cpu: CPU { reg_pc: w_add16(v, 1), ..b1.cpu }, ..b1 }, Ok(())),
    }
}

pub open spec fn spec_instr_rti(b: BoardV) -> (BoardV, Result<(), EmuError>) {
    let (b1, r1) = spec_pop_stack(b);
    match r1 {
        Err(e) => (b1, Err(e)),
        Ok(v) => {
            let b2 = BoardV {
                cpu: CPU { reg_status: spec_status_from_stack(b1.cpu.reg_status, v), ..b1.cpu },
                ..b1
            };
            let (b3, r3) = spec_pop_stack_u16(b2);
            match r3 {
                Err(e) => (b3, Err(e)),
                Ok(pc) => (BoardV { cpu: CPU { reg_pc: pc, ..b3.cpu }, ..b3 }, Ok(())),
            }
        },
    }
}

pub open spec fn spec_instr_alr(b: BoardV) -> (BoardV, Result<(), EmuError>) {
    let (b1, r1) = spec_instr_and(b);
    match r1 {
        Err(e) => (b1, Err(e)),
        Ok(_) => spec_instr_lsr(b1),
    }
}

pub open spec fn spec_instr_arr(b: BoardV) -> (BoardV, Result<(), EmuError>) {
    let (b1, r1) = spec_instr_and(b);
    match r1 {
        Err(e) => (b1, Err(e)),
        Ok(_) => spec_instr_ror(b1),
    }
}

pub open spec fn spec_instr_dcp(b: BoardV) -> (BoardV, Result<(), EmuError>) {
    let (b1, r1) = spec_instr_dec(b);
    match r1 {
        Err(e) => (b1, Err(e)),
        Ok(_) => spec_instr_cmp(b1),
    }
}

pub open spec fn spec_instr_isc(b: BoardV) -> (BoardV, Result<(), EmuError>) {
    let (b1, r1) = spec_instr_inc(b);
    match r1 {
        Err(e) => (b1, Err(e)),
        Ok(_) => spec_instr_sbc(b1),
    }
}

pub open spec fn spec_instr_rla(b: BoardV) -> (BoardV, Result<(), EmuError>) {
    let (b1, r1) = spec_instr_rol(b);
    match r1 {
        Err(e) => (b1, Err(e)),
        Ok(_) => spec_instr_and(b1),
    }
}

pub open spec fn spec_instr_rra(b: BoardV) -> (BoardV, Result<(), EmuError>) {
    let (b1, r1) = spec_instr_ror(b);
    match r1 {
        Err(e) => (b1, Err(e)),
        Ok(_) => spec_instr_adc(b1),
    }
}

pub open spec fn spec_instr_slo(b: BoardV) -> (BoardV, Result<(), EmuError>) {
    let (b1, r1) = spec_instr_asl(b);
    match r1 {
        Err(e) => (b1, Err(e)),
        Ok(_) => spec_instr_ora(b1),
    }
}

pub open spec fn spec_instr_sre(b: BoardV) -> (BoardV, Result<(), EmuError>) {
    let (b1, r1) = spec_instr_lsr(b);
    match r1 {
        Err(e) => (b1, Err(e)),
        Ok(_) => spec_instr_eor(b1),
    }
}

/// The per-instruction transition the fetch step applies.
pub open spec fn spec_execute_instruction(b: BoardV, instruction: Instruction) -> (BoardV, Result<
    (),
    EmuError,
>) {
    match instruction {
        Instruction::ADC => spec_instr_adc(b),
        Instruction::AND => spec_instr_and(b),
        Instruction::ASL => spec_instr_asl(b),
        Instruction::BIT => spec_instr_bit(b),
        Instruction::BCC => spec_instr_bcc(b),
        Instruction::BCS => spec_instr_bcs(b),
        Instruction::BEQ => spec_instr_beq(b),
        Instruction::BMI => spec_instr_bmi(b),
        Instruction::BNE => spec_instr_bne(b),
        Instruction::BPL => spec_instr_bpl(b),
        Instruction::BVC => spec_instr_bvc(b),
        Instruction::BVS => spec_instr_bvs(b),
        Instruction::BRK => spec_instr_brk(b),
        Instruction::CLC => spec_instr_clc(b),
        Instruction::CLD => spec_instr_cld(b),
        Instruction::CLI => spec_instr_cli(b),
        Instruction::CLV => spec_instr_clv(b),
        Instruction::CMP => spec_instr_cmp(b),
        Instruction::CPX => spec_instr_cpx(b),
        Instruction::CPY => spec_instr_cpy(b),
        Instruction::DEC => spec_instr_dec(b),
        Instruction::DEX => spec_instr_dex(b),
        Instruction::DEY => spec_instr_dey(b),
        Instruction::EOR => spec_instr_eor(b),
        Instruction::INC => spec_instr_inc(b),
        Instruction::INX => spec_instr_inx(b),
        Instruction::INY => spec_instr_iny(b),
        Instruction::JMP => spec_instr_jmp(b),
        Instruction::JSR => spec_instr_jsr(b),
        Instruction::LDA => spec_instr_lda(b),
        Instruction::LDX => spec_instr_ldx(b),
        Instruction::LDY => spec_instr_ldy(b),
        Instruction::LSR => spec_instr_lsr(b),
        Instruction::ORA => spec_instr_ora(b),
        Instruction::PHA => spec_instr_pha(b),
        Instruction::PHP => spec_instr_php(b),
        Instruction::PLA => spec_instr_pla(b),
        Instruction::PLP => spec_instr_plp(b),
        Instruction::ROL => spec_instr_rol(b),
        Instruction::ROR => spec_instr_ror(b),
        Instruction::RTI => spec_instr_rti(b),
        Instruction::RTS => spec_instr_rts(b),
        Instruction::SBC => spec_instr_sbc(b),
        Instruction::SEC => spec_instr_sec(b),
        Instruction::SED => spec_instr_sed(b),
        Instruction::SEI => spec_instr_sei(b),
        Instruction::STA => spec_instr_sta(b),
        Instruction::STX => spec_instr_stx(b),
        Instruction::STY => spec_instr_sty(b),
        Instruction::TAX => spec_instr_tax(b),
        Instruction::TAY => spec_instr_tay(b),
        Instruction::TSX => spec_instr_tsx(b),
        Instruction::TXA => spec_instr_txa(b),
        Instruction::TXS => spec_instr_txs(b),
        Instruction::TYA => spec_instr_tya(b),
        Instruction::ALR => spec_instr_alr(b),
        Instruction::ANC => spec_instr_anc(b),
        Instruction::ARR => spec_instr_arr(b),
        Instruction::AXS => spec_instr_axs(b),
        Instruction::LAX => spec_instr_lax(b),
        Instruction::SAX => spec_instr_sax(b),
        Instruction::DCP => spec_instr_dcp(b),
        Instruction::ISC => spec_instr_isc(b),
        Instruction::RLA => spec_instr_rla(b),
        Instruction::RRA => spec_instr_rra(b),
        Instruction::SLO => spec_instr_slo(b),
        Instruction::SRE => spec_instr_sre(b),
        Instruction::NOP => spec_instr_nop(b),
        Instruction::SKB => spec_instr_skb(b),
        Instruction::IGN => spec_instr_ign(b),
    }
}

impl BoardImpl {

    pub fn instruction_adc(&mut self) -> (r: Result<(), EmuError>)
        requires
            board_wf(old(self)@),
        ensures
            board_wf(final(self)@),
            ({
                let (b2, r2) = spec_instr_adc(old(self)@);
                &&& final(self)@ == b2
                &&& r == r2
            }),
    {
        let da = self.cpu.data_address;
        let m = match self.cpu_bus_read(da) {
            Ok(v) => v,
            Err(e) => {
                return Err(e);
            },
        };
        self.cpu.op_adc(m);
        Ok(())
    }

    pub fn instruction_and(&mut self) -> (r: Result<(), EmuError>)
        requires
            board_wf(old(self)@),
        ensures
            board_wf(final(self)@),
            ({
                let (b2, r2) = spec_instr_and(old(self)@);
                &&& final(self)@ == b2
                &&& r == r2
            }),
    {
        let da = self.cpu.data_address;
        let m = match self.cpu_bus_read(da) {
            Ok(v) => v,
            Err(e) => {
                return Err(e);
            },
        };
        self.cpu.op_and(m);
        Ok(())
    }

    pub fn instruction_bit(&mut self) -> (r: Result<(), EmuError>)
        requires
            board_wf(old(self)@),
        ensures
            board_wf(final(self)@),
            ({
                let (b2, r2) = spec_instr_bit(old(self)@);
                &&& final(self)@ == b2
                &&& r == r2
            }),
    {
        let da = self.cpu.data_address;
        let m = match self.cpu_bus_read(da) {
            Ok(v) => v,
            Err(e) => {
                return Err(e);
            },
        };
        self.cpu.op_bit(m);
        Ok(())
    }

    pub fn instruction_cmp(&mut self) -> (r: Result<(), EmuError>)
        requires
            board_wf(old(self)@),
        ensures
            board_wf(final(self)@),
            ({
                let (b2, r2) = spec_instr_cmp(old(self)@);
                &&& final(self)@ == b2
                &&& r == r2
            }),
    {
        let da = self.cpu.data_address;
        let m = match self.cpu_bus_read(da) {
            Ok(v) => v,
            Err(e) => {
                return Err(e);
            },
        };
        self.cpu.op_cmp(m);
        Ok(())
    }

    pub fn instruction_cpx(&mut self) -> (r: Result<(), EmuError>)
        requires
            board_wf(old(self)@),
        ensures
            board_wf(final(self)@),
            ({
                let (b2, r2) = spec_instr_cpx(old(self)@);
                &&& final(self)@ == b2
                &&& r == r2
            }),
    {
        let da = self.cpu.data_address;
        let m = match self.cpu_bus_read(da) {
            Ok(v) => v,
            Err(e) => {
                return Err(e);
            },
        };
        self.cpu.op_cpx(m);
        Ok(())
    }

    pub fn instruction_cpy(&mut self) -> (r: Result<(), EmuError>)
        requires
            board_wf(old(self)@),
        ensures
            board_wf(final(self)@),
            ({
                let (b2, r2) = spec_instr_cpy(old(self)@);
                &&& final(self)@ == b2
                &&& r == r2
            }),
    {
        let da = self.cpu.data_address;
        let m = match self.cpu_bus_read(da) {
            Ok(v) => v,
            Err(e) => {
                return Err(e);
            },
        };
        self.cpu.op_cpy(m);
        Ok(())
    }

    pub fn instruction_eor(&mut self) -> (r: Result<(), EmuError>)
        requires
            board_wf(old(self)@),
        ensures
            board_wf(final(self)@),
            ({
                let (b2, r2) = spec_instr_eor(old(self)@);
                &&& final(self)@ == b2
                &&& r == r2
            }),
    {
        let da = self.cpu.data_address;
        let m = match self.cpu_bus_read(da) {
            Ok(v) => v,
            Err(e) => {
                return Err(e);
            },
        };
        self.cpu.op_eor(m);
        Ok(())
    }

    pub fn instruction_lda(&mut self) -> (r: Result<(), EmuError>)
        requires
            board_wf(old(self)@),
        ensures
            board_wf(final(self)@),
            ({
                let (b2, r2) = spec_instr_lda(old(self)@);
                &&& final(self)@ == b2
                &&& r == r2
            }),
    {
        let da = self.cpu.data_address;
        let m = match self.cpu_bus_read(da) {
            Ok(v) => v,
            Err(e) => {
                return Err(e);
            },
        };
        self.cpu.op_lda(m);
        Ok(())
    }

    pub fn instruction_ldx(&mut self) -> (r: Result<(), EmuError>)
        requires
            board_wf(old(self)@),
        ensures
            board_wf(final(self)@),
            ({
                let (b2, r2) = spec_instr_ldx(old(self)@);
                &&& final(self)@ == b2
                &&& r == r2
            }),
    {
        let da = self.cpu.data_address;
        let m = match self.cpu_bus_read(da) {
            Ok(v) => v,
            Err(e) => {
                return Err(e);
            },
        };
        self.cpu.op_ldx(m);
        Ok(())
    }

    pub fn instruction_ldy(&mut self) -> (r: Result<(), EmuError>)
        requires
            board_wf(old(self)@),
        ensures
            board_wf(final(self)@),
            ({
                let (b2, r2) = spec_instr_ldy(old(self)@);
                &&& final(self)@ == b2
                &&& r == r2
            }),
    {
        let da = self.cpu.data_address;
        let m = match self.cpu_bus_read(da) {
            Ok(v) => v,
            Err(e) => {
                return Err(e);
            },
        };
        self.cpu.op_ldy(m);
        Ok(())
    }

    pub fn instruction_ora(&mut self) -> (r: Result<(), EmuError>)
        requires
            board_wf(old(self)@),
        ensures
            board_wf(final(self)@),
            ({
                let (b2, r2) = spec_instr_ora(old(self)@);
                &&& final(self)@ == b2
                &&& r == r2
            }),
    {
        let da = self.cpu.data_address;
        let m = match self.cpu_bus_read(da) {
            Ok(v) => v,
            Err(e) => {
                return Err(e);
            },
        };
        self.cpu.op_ora(m);
        Ok(())
    }

    pub fn instruction_sbc(&mut self) -> (r: Result<(), EmuError>)
        requires
            board_wf(old(self)@),
        ensures
            board_wf(final(self)@),
            ({
                let (b2, r2) = spec_instr_sbc(old(self)@);
                &&& final(self)@ == b2
                &&& r == r2
            }),
    {
        let da = self.cpu.data_address;
        let m = match self.cpu_bus_read(da) {
            Ok(v) => v,
            Err(e) => {
                return Err(e);
            },
        };
        self.cpu.op_sbc(m);
        Ok(())
    }

    pub fn instruction_lax(&mut self) -> (r: Result<(), EmuError>)
        requires
            board_wf(old(self)@),
        ensures
            board_wf(final(self)@),
            ({
                let (b2, r2) = spec_instr_lax(old(self)@);
                &&& final(self)@ == b2
                &&& r == r2
            }),
    {
        let da = self.cpu.data_address;
        let m = match self.cpu_bus_read(da) {
            Ok(v) => v,
            Err(e) => {
                return Err(e);
            },
        };
        self.cpu.op_lax(m);
        Ok(())
    }

    pub fn instruction_anc(&mut self) -> (r: Result<(), EmuError>)
        requires
            board_wf(old(self)@),
        ensures
            board_wf(final(self)@),
            ({
                let (b2, r2) = spec_instr_anc(old(self)@);
                &&& final(self)@ == b2
                &&& r == r2
            }),
    {
        let da = self.cpu.data_address;
        let m = match self.cpu_bus_read(da) {
            Ok(v) => v,
            Err(e) => {
                return Err(e);
            },
        };
        self.cpu.op_anc(m);
        Ok(())
    }

    pub fn instruction_clc(&mut self) -> (r: Result<(), EmuError>)
        requires
            board_wf(old(self)@),
        ensures
            board_wf(final(self)@),
            ({
                let (b2, r2) = spec_instr_clc(old(self)@);
                &&& final(self)@ == b2
                &&& r == r2
            }),
    {
        self.cpu.set_flag(StatusFlag::Carry, false);
        Ok(())
    }

    pub fn instruction_sec(&mut self) -> (r: Result<(), EmuError>)
        requires
            board_wf(old(self)@),
        ensures
            board_wf(final(self)@),
            ({
                let (b2, r2) = spec_instr_sec(old(self)@);
                &&& final(self)@ == b2
                &&& r == r2
            }),
    {
        self.cpu.set_flag(StatusFlag::Carry, true);
        Ok(())
    }

    pub fn instruction_cld(&mut self) -> (r: Result<(), EmuError>)
        requires
            board_wf(old(self)@),
        ensures
            board_wf(final(self)@),
            ({
                let (b2, r2) = spec_instr_cld(old(self)@);
                &&& final(self)@ == b2
                &&& r == r2
            }),
    {
        self.cpu.set_flag(StatusFlag::DecimalMode, false);
        Ok(())
    }

    pub fn instruction_sed(&mut self) -> (r: Result<(), EmuError>)
        requires
            board_wf(old(self)@),
        ensures
            board_wf(final(self)@),
            ({
                let (b2, r2) = spec_instr_sed(old(self)@);
                &&& final(self)@ == b2
                &&& r == r2
            }),
    {
        self.cpu.set_flag(StatusFlag::DecimalMode, true);
        Ok(())
    }

    pub fn instruction_cli(&mut self) -> (r: Result<(), EmuError>)
        requires
            board_wf(old(self)@),
        ensures
            board_wf(final(self)@),
            ({
                let (b2, r2) = spec_instr_cli(old(self)@);
                &&& final(self)@ == b2
                &&& r == r2
            }),
    {
        self.cpu.set_flag(StatusFlag::InterruptDisable, false);
        Ok(())
    }

    pub fn instruction_sei(&mut self) -> (r: Result<(), EmuError>)
        requires
            board_wf(old(self)@),
        ensures
            board_wf(final(self)@),
            ({
                let (b2, r2) = spec_instr_sei(old(self)@);
                &&& final(self)@ == b2
                &&& r == r2
            }),
    {
        self.cpu.set_flag(StatusFlag::InterruptDisable, true);
        Ok(())
    }

    pub fn instruction_clv(&mut self) -> (r: Result<(), EmuError>)
        requires
            board_wf(old(self)@),
        ensures
            board_wf(final(self)@),
            ({
                let (b2, r2) = spec_instr_clv(old(self)@);
                &&& final(self)@ == b2
                &&& r == r2
            }),
    {
        self.cpu.set_flag(StatusFlag::Overflow, false);
        Ok(())
    }

    pub fn instruction_dex(&mut self) -> (r: Result<(), EmuError>)
        requires
            board_wf(old(self)@),
        ensures
            board_wf(final(self)@),
            ({
                let (b2, r2) = spec_instr_dex(old(self)@);
                &&& final(self)@ == b2
                &&& r == r2
            }),
    {
        self.cpu.op_dex();
        Ok(())
    }

    pub fn instruction_dey(&mut self) -> (r: Result<(), EmuError>)
        requires
            board_wf(old(self)@),
        ensures
            board_wf(final(self)@),
            ({
                let (b2, r2) = spec_instr_dey(old(self)@);
                &&& final(self)@ == b2
                &&& r == r2
            }),
    {
        self.cpu.op_dey();
        Ok(())
    }

    pub fn instruction_inx(&mut self) -> (r: Result<(), EmuError>)
        requires
            board_wf(old(self)@),
        ensures
            board_wf(final(self)@),
            ({
                let (b2, r2) = spec_instr_inx(old(self)@);
                &&& final(self)@ == b2
                &&& r == r2
            }),
    {
        self.cpu.op_inx();
        Ok(())
    }

    pub fn instruction_iny(&mut self) -> (r: Result<(), EmuError>)
        requires
            board_wf(old(self)@),
        ensures
            board_wf(final(self)@),
            ({
                let (b2, r2) = spec_instr_iny(old(self)@);
                &&& final(self)@ == b2
                &&& r == r2
            }),
    {
        self.cpu.op_iny();
        Ok(())
    }

    pub fn instruction_tax(&mut self) -> (r: Result<(), EmuError>)
        requires
            board_wf(old(self)@),
        ensures
            board_wf(final(self)@),
            ({
                let (b2, r2) = spec_instr_tax(old(self)@);
                &&& final(self)@ == b2
                &&& r == r2
            }),
    {
        self.cpu.op_tax();
        Ok(())
    }

    pub fn instruction_tay(&mut self) -> (r: Result<(), EmuError>)
        requires
            board_wf(old(self)@),
        ensures
            board_wf(final(self)@),
            ({
                let (b2, r2) = spec_instr_tay(old(self)@);
                &&& final(self)@ == b2
                &&& r == r2
            }),
    {
        self.cpu.op_tay();
        Ok(())
    }

    pub fn instruction_tsx(&mut self) -> (r: Result<(), EmuError>)
        requires
            board_wf(old(self)@),
        ensures
            board_wf(final(self)@),
            ({
                let (b2, r2) = spec_instr_tsx(old(self)@);
                &&& final(self)@ == b2
                &&& r == r2
            }),
    {
        self.cpu.op_tsx();
        Ok(())
    }

    pub fn instruction_txa(&mut self) -> (r: Result<(), EmuError>)
        requires
            board_wf(old(self)@),
        ensures
            board_wf(final(self)@),
            ({
                let (b2, r2) = spec_instr_txa(old(self)@);
                &&& final(self)@ == b2
                &&& r == r2
            }),
    {
        self.cpu.op_txa();
        Ok(())
    }

    pub fn instruction_txs(&mut self) -> (r: Result<(), EmuError>)
        requires
            board_wf(old(self)@),
        ensures
            board_wf(final(self)@),
            ({
                let (b2, r2) = spec_instr_txs(old(self)@);
                &&& final(self)@ == b2
                &&& r == r2
            }),
    {
        self.cpu.op_txs();
        Ok(())
    }

    pub fn instruction_tya(&mut self) -> (r: Result<(), EmuError>)
        requires
            board_wf(old(self)@),
        ensures
            board_wf(final(self)@),
            ({
                let (b2, r2) = spec_instr_tya(old(self)@);
                &&& final(self)@ == b2
                &&& r == r2
            }),
    {
        self.cpu.op_tya();
        Ok(())
    }

    pub fn instruction_axs(&mut self) -> (r: Result<(), EmuError>)
        requires
            board_wf(old(self)@),
        ensures
            board_wf(final(self)@),
            ({
                let (b2, r2) = spec_instr_axs(old(self)@);
                &&& final(self)@ == b2
                &&& r == r2
            }),
    {
        self.cpu.op_axs();
        Ok(())
    }

    pub fn instruction_jmp(&mut self) -> (r: Result<(), EmuError>)
        requires
            board_wf(old(self)@),
        ensures
            board_wf(final(self)@),
            ({
                let (b2, r2) = spec_instr_jmp(old(self)@);
                &&& final(self)@ == b2
                &&& r == r2
            }),
    {
        self.cpu.op_jmp();
        Ok(())
    }

    pub fn instruction_nop(&mut self) -> (r: Result<(), EmuError>)
        requires
            board_wf(old(self)@),
        ensures
            board_wf(final(self)@),
            ({
                let (b2, r2) = spec_instr_nop(old(self)@);
                &&& final(self)@ == b2
                &&& r == r2
            }),
    {
        Ok(())
    }

    pub fn instruction_skb(&mut self) -> (r: Result<(), EmuError>)
        requires
            board_wf(old(self)@),
        ensures
            board_wf(final(self)@),
            ({
                let (b2, r2) = spec_instr_skb(old(self)@);
                &&& final(self)@ == b2
                &&& r == r2
            }),
    {
        Ok(())
    }

    pub fn instruction_ign(&mut self) -> (r: Result<(), EmuError>)
        requires
            board_wf(old(self)@),
        ensures
            board_wf(final(self)@),
            ({
                let (b2, r2) = spec_instr_ign(old(self)@);
                &&& final(self)@ == b2
                &&& r == r2
            }),
    {
        Ok(())
    }

    pub fn instruction_bcc(&mut self) -> (r: Result<(), EmuError>)
        requires
            board_wf(old(self)@),
        ensures
            board_wf(final(self)@),
            ({
                let (b2, r2) = spec_instr_bcc(old(self)@);
                &&& final(self)@ == b2
                &&& r == r2
            }),
    {
        let cond = !self.cpu.get_flag(StatusFlag::Carry);
        self.cpu.branch_on(cond);
        Ok(())
    }

    pub fn instruction_bcs(&mut self) -> (r: Result<(), EmuError>)
        requires
            board_wf(old(self)@),
        ensures
            board_wf(final(self)@),
            ({
                let (b2, r2) = spec_instr_bcs(old(self)@);
                &&& final(self)@ == b2
                &&& r == r2
            }),
    {
        let cond = self.cpu.get_flag(StatusFlag::Carry);
        self.cpu.branch_on(cond);
        Ok(())
    }

    pub fn instruction_beq(&mut self) -> (r: Result<(), EmuError>)
        requires
            board_wf(old(self)@),
        ensures
            board_wf(final(self)@),
            ({
                let (b2, r2) = spec_instr_beq(old(self)@);
                &&& final(self)@ == b2
                &&& r == r2
            }),
    {
        let cond = self.cpu.get_flag(StatusFlag::Zero);
        self.cpu.branch_on(cond);
        Ok(())
    }

    pub fn instruction_bne(&mut self) -> (r: Result<(), EmuError>)
        requires
            board_wf(old(self)@),
        ensures
            board_wf(final(self)@),
            ({
                let (b2, r2) = spec_instr_bne(old(self)@);
                &&& final(self)@ == b2
                &&& r == r2
            }),
    {
        let cond = !self.cpu.get_flag(StatusFlag::Zero);
        self.cpu.branch_on(cond);
        Ok(())
    }

    pub fn instruction_bmi(&mut self) -> (r: Result<(), EmuError>)
        requires
            board_wf(old(self)@),
        ensures
            board_wf(final(self)@),
            ({
                let (b2, r2) = spec_instr_bmi(old(self)@);
                &&& final(self)@ == b2
                &&& r == r2
            }),
    {
        let cond = self.cpu.get_flag(StatusFlag::Negative);
        self.cpu.branch_on(cond);
        Ok(())
    }

    pub fn instruction_bpl(&mut self) -> (r: Result<(), EmuError>)
        requires
            board_wf(old(self)@),
        ensures
            board_wf(final(self)@),
            ({
                let (b2, r2) = spec_instr_bpl(old(self)@);
                &&& final(self)@ == b2
                &&& r == r2
            }),
    {
        let cond = !self.cpu.get_flag(StatusFlag::Negative);
        self.cpu.branch_on(cond);
        Ok(())
    }

    pub fn instruction_bvs(&mut self) -> (r: Result<(), EmuError>)
        requires
            board_wf(old(self)@),
        ensures
            board_wf(final(self)@),
            ({
                let (b2, r2) = spec_instr_bvs(old(self)@);
                &&& final(self)@ == b2
                &&& r == r2
            }),
    {
        let cond = self.cpu.get_flag(StatusFlag::Overflow);
        self.cpu.branch_on(cond);
        Ok(())
    }

    pub fn instruction_bvc(&mut self) -> (r: Result<(), EmuError>)
        requires
            board_wf(old(self)@),
        ensures
            board_wf(final(self)@),
            ({
                let (b2, r2) = spec_instr_bvc(old(self)@);
                &&& final(self)@ == b2
                &&& r == r2
            }),
    {
        let cond = !self.cpu.get_flag(StatusFlag::Overflow);
        self.cpu.branch_on(cond);
        Ok(())
    }

    pub fn instruction_asl(&mut self) -> (r: Result<(), EmuError>)
        requires
            board_wf(old(self)@),
        ensures
            board_wf(final(self)@),
            ({
                let (b2, r2) = spec_instr_asl(old(self)@);
                &&& final(self)@ == b2
                &&& r == r2
            }),
    {
        match self.cpu.mode {
            AddressingMode::Accumulator => {
                let a = self.cpu.reg_a;
                let out = self.cpu.apply_asl(a);
                self.cpu.reg_a = out;
                Ok(())
            },
            _ => {
                let da = self.cpu.data_address;
                let m = match self.cpu_bus_read(da) {
                    Ok(v) => v,
                    Err(e) => {
                        return Err(e);
                    },
                };
                let out = self.cpu.apply_asl(m);
                self.cpu_bus_write(da, out)
            },
        }
    }

    pub fn instruction_lsr(&mut self) -> (r: Result<(), EmuError>)
        requires
            board_wf(old(self)@),
        ensures
            board_wf(final(self)@),
            ({
                let (b2, r2) = spec_instr_lsr(old(self)@);
                &&& final(self)@ == b2
                &&& r == r2
            }),
    {
        match self.cpu.mode {
            AddressingMode::Accumulator => {
                let a = self.cpu.reg_a;
                let out = self.cpu.apply_lsr(a);
                self.cpu.reg_a = out;
                Ok(())
            },
            _ => {
                let da = self.cpu.data_address;
                let m = match self.cpu_bus_read(da) {
                    Ok(v) => v,
                    Err(e) => {
                        return Err(e);
                    },
                };
                let out = self.cpu.apply_lsr(m);
                self.cpu_bus_write(da, out)
            },
        }
    }

    pub fn instruction_rol(&mut self) -> (r: Result<(), EmuError>)
        requires
            board_wf(old(self)@),
        ensures
            board_wf(final(self)@),
            ({
                let (b2, r2) = spec_instr_rol(old(self)@);
                &&& final(self)@ == b2
                &&& r == r2
            }),
    {
        match self.cpu.mode {
            AddressingMode::Accumulator => {
                let a = self.cpu.reg_a;
                let _ = self.cpu.apply_rol(a, true);
                Ok(())
            },
            _ => {
                let da = self.cpu.data_address;
                let m = match self.cpu_bus_read(da) {
                    Ok(v) => v,
                    Err(e) => {
                        return Err(e);
                    },
                };
                let out = self.cpu.apply_rol(m, false);
                self.cpu_bus_write(da, out)
            },
        }
    }

    pub fn instruction_ror(&mut self) -> (r: Result<(), EmuError>)
        requires
            board_wf(old(self)@),
        ensures
            board_wf(final(self)@),
            ({
                let (b2, r2) = spec_instr_ror(old(self)@);
                &&& final(self)@ == b2
                &&& r == r2
            }),
    {
        match self.cpu.mode {
            AddressingMode::Accumulator => {
                let a = self.cpu.reg_a;
                let _ = self.cpu.apply_ror(a, true);
                Ok(())
            },
            _ => {
                let da = self.cpu.data_address;
                let m = match self.cpu_bus_read(da) {
                    Ok(v) => v,
                    Err(e) => {
                        return Err(e);
                    },
                };
                let out = self.cpu.apply_ror(m, false);
                self.cpu_bus_write(da, out)
            },
        }
    }

    pub fn instruction_inc(&mut self) -> (r: Result<(), EmuError>)
        requires
            board_wf(old(self)@),
        ensures
            board_wf(final(self)@),
            ({
                let (b2, r2) = spec_instr_inc(old(self)@);
                &&& final(self)@ == b2
                &&& r == r2
            }),
    {
        let da = self.cpu.data_address;
        let m = match self.cpu_bus_read(da) {
            Ok(v) => v,
            Err(e) => {
                return Err(e);
            },
        };
        let out = self.cpu.apply_inc(m);
        self.cpu_bus_write(da, out)
    }

    pub fn instruction_dec(&mut self) -> (r: Result<(), EmuError>)
        requires
            board_wf(old(self)@),
        ensures
            board_wf(final(self)@),
            ({
                let (b2, r2) = spec_instr_dec(old(self)@);
                &&& final(self)@ == b2
                &&& r == r2
            }),
    {
        let da = self.cpu.data_address;
        let m = match self.cpu_bus_read(da) {
            Ok(v) => v,
            Err(e) => {
                return Err(e);
            },
        };
        let out = self.cpu.apply_dec(m);
        self.cpu_bus_write(da, out)
    }

    pub fn instruction_sta(&mut self) -> (r: Result<(), EmuError>)
        requires
            board_wf(old(self)@),
        ensures
            board_wf(final(self)@),
            ({
                let (b2, r2) = spec_instr_sta(old(self)@);
                &&& final(self)@ == b2
                &&& r == r2
            }),
    {
        let da = self.cpu.data_address;
        let v = self.cpu.reg_a;
        self.cpu_bus_write(da, v)
    }

    pub fn instruction_stx(&mut self) -> (r: Result<(), EmuError>)
        requires
            board_wf(old(self)@),
        ensures
            board_wf(final(self)@),
            ({
                let (b2, r2) = spec_instr_stx(old(self)@);
                &&& final(self)@ == b2
                &&& r == r2
            }),
    {
        let da = self.cpu.data_address;
        let v = self.cpu.reg_x;
        self.cpu_bus_write(da, v)
    }

    pub fn instruction_sty(&mut self) -> (r: Result<(), EmuError>)
        requires
            board_wf(old(self)@),
        ensures
            board_wf(final(self)@),
            ({
                let (b2, r2) = spec_instr_sty(old(self)@);
                &&& final(self)@ == b2
                &&& r == r2
            }),
    {
        let da = self.cpu.data_address;
        let v = self.cpu.reg_y;
        self.cpu_bus_write(da, v)
    }

    pub fn instruction_sax(&mut self) -> (r: Result<(), EmuError>)
        requires
            board_wf(old(self)@),
        ensures
            board_wf(final(self)@),
            ({
                let (b2, r2) = spec_instr_sax(old(self)@);
                &&& final(self)@ == b2
                &&& r == r2
            }),
    {
        let da = self.cpu.data_address;
        let v = self.cpu.reg_x & self.cpu.reg_a;
        self.cpu_bus_write(da, v)
    }

    pub fn instruction_pha(&mut self) -> (r: Result<(), EmuError>)
        requires
            board_wf(old(self)@),
        ensures
            board_wf(final(self)@),
            ({
                let (b2, r2) = spec_instr_pha(old(self)@);
                &&& final(self)@ == b2
                &&& r == r2
            }),
    {
        let v = self.cpu.reg_a;
        self.push_stack(v)
    }

    pub fn instruction_php(&mut self) -> (r: Result<(), EmuError>)
        requires
            board_wf(old(self)@),
        ensures
            board_wf(final(self)@),
            ({
                let (b2, r2) = spec_instr_php(old(self)@);
                &&& final(self)@ == b2
                &&& r == r2
            }),
    {
        let v = self.cpu.reg_status | 0x30;
        self.push_stack(v)
    }

    pub fn instruction_pla(&mut self) -> (r: Result<(), EmuError>)
        requires
            board_wf(old(self)@),
        ensures
            board_wf(final(self)@),
            ({
                let (b2, r2) = spec_instr_pla(old(self)@);
                &&& final(self)@ == b2
                &&& r == r2
            }),
    {
        let v = match self.pop_stack() {
            Ok(v) => v,
            Err(e) => {
                return Err(e);
            },
        };
        self.cpu.op_lda(v);
        Ok(())
    }

    pub fn instruction_plp(&mut self) -> (r: Result<(), EmuError>)
        requires
            board_wf(old(self)@),
        ensures
            board_wf(final(self)@),
            ({
                let (b2, r2) = spec_instr_plp(old(self)@);
                &&& final(self)@ == b2
                &&& r == r2
            }),
    {
        let v = match self.pop_stack() {
            Ok(v) => v,
            Err(e) => {
                return Err(e);
            },
        };
        let cur_b = self.cpu.get_flag(StatusFlag::BreakCommand);
        let cur_u = self.cpu.get_flag(StatusFlag::Unused);
        let s = crate::status::set_status_flag(
            crate::status::set_status_flag(v, StatusFlag::BreakCommand, cur_b),
            StatusFlag::Unused,
            cur_u,
        );
        self.cpu.reg_status = s;
        Ok(())
    }

    pub fn instruction_brk(&mut self) -> (r: Result<(), EmuError>)
        requires
            board_wf(old(self)@),
        ensures
            board_wf(final(self)@),
            ({
                let (b2, r2) = spec_instr_brk(old(self)@);
                &&& final(self)@ == b2
                &&& r == r2
            }),
    {
        let pc = self.cpu.reg_pc;
        match self.push_stack_u16(pc.wrapping_add(1)) {
            Ok(_) => {},
            Err(e) => {
                return Err(e);
            },
        }
        let st = self.cpu.reg_status;
        match self.push_stack(st) {
            Ok(_) => {},
            Err(e) => {
                return Err(e);
            },
        }
        self.cpu.set_flag(StatusFlag::InterruptDisable, true);
        self.cpu.set_flag(StatusFlag::BreakCommand, true);
        let v = match self.cpu_bus_read_u16(0xFFFE) {
            Ok(v) => v,
            Err(e) => {
                return Err(e);
            },
        };
        self.cpu.reg_pc = v;
        Ok(())
    }

    pub fn instruction_jsr(&mut self) -> (r: Result<(), EmuError>)
        requires
            board_wf(old(self)@),
        ensures
            board_wf(final(self)@),
            ({
                let (b2, r2) = spec_instr_jsr(old(self)@);
                &&& final(self)@ == b2
                &&& r == r2
            }),
    {
        let pc = self.cpu.reg_pc;
        match self.push_stack_u16(pc.wrapping_sub(1)) {
            Ok(_) => {},
            Err(e) => {
                return Err(e);
            },
        }
        self.cpu.reg_pc = self.cpu.data_address;
        Ok(())
    }

    pub fn instruction_rts(&mut self) -> (r: Result<(), EmuError>)
        requires
            board_wf(old(self)@),
        ensures
            board_wf(final(self)@),
            ({
                let (b2, r2) = spec_instr_rts(old(self)@);
                &&& final(self)@ == b2
                &&& r == r2
            }),
    {
        let v = match self.pop_stack_u16() {
            Ok(v) => v,
            Err(e) => {
                return Err(e);
            },
        };
        self.cpu.reg_pc = v.wrapping_add(1);
        Ok(())
    }

    pub fn instruction_rti(&mut self) -> (r: Result<(), EmuError>)
        requires
            board_wf(old(self)@),
        ensures
            board_wf(final(self)@),
            ({
                let (b2, r2) = spec_instr_rti(old(self)@);
                &&& final(self)@ == b2
                &&& r == r2
            }),
    {
        let v = match self.pop_stack() {
            Ok(v) => v,
            Err(e) => {
                return Err(e);
            },
        };
        let cur_b = self.cpu.get_flag(StatusFlag::BreakCommand);
        let cur_u = self.cpu.get_flag(StatusFlag::Unused);
        let s = crate::status::set_status_flag(
            crate::status::set_status_flag(v, StatusFlag::BreakCommand, cur_b),
            StatusFlag::Unused,
            cur_u,
        );
        self.cpu.reg_status = s;
        let pc = match self.pop_stack_u16() {
            Ok(v) => v,
            Err(e) => {
                return Err(e);
            },
        };
        self.cpu.reg_pc = pc;
        Ok(())
    }

    pub fn instruction_alr(&mut self) -> (r: Result<(), EmuError>)
        requires
            board_wf(old(self)@),
        ensures
            board_wf(final(self)@),
            ({
                let (b2, r2) = spec_instr_alr(old(self)@);
                &&& final(self)@ == b2
                &&& r == r2
            }),
    {
        match self.instruction_and() {
            Ok(_) => {},
            Err(e) => {
                return Err(e);
            },
        }
        self.instruction_lsr()
    }

    pub fn instruction_arr(&mut self) -> (r: Result<(), EmuError>)
        requires
            board_wf(old(self)@),
        ensures
            board_wf(final(self)@),
            ({
                let (b2, r2) = spec_instr_arr(old(self)@);
                &&& final(self)@ == b2
                &&& r == r2
            }),
    {
        match self.instruction_and() {
            Ok(_) => {},
            Err(e) => {
                return Err(e);
            },
        }
        self.instruction_ror()
    }

    pub fn instruction_dcp(&mut self) -> (r: Result<(), EmuError>)
        requires
            board_wf(old(self)@),
        ensures
            board_wf(final(self)@),
            ({
                let (b2, r2) = spec_instr_dcp(old(self)@);
                &&& final(self)@ == b2
                &&& r == r2
            }),
    {
        match self.instruction_dec() {
            Ok(_) => {},
            Err(e) => {
                return Err(e);
            },
        }
        self.instruction_cmp()
    }

    pub fn instruction_isc(&mut self) -> (r: Result<(), EmuError>)
        requires
            board_wf(old(self)@),
        ensures
            board_wf(final(self)@),
            ({
                let (b2, r2) = spec_instr_isc(old(self)@);
                &&& final(self)@ == b2
                &&& r == r2
            }),
    {
        match self.instruction_inc() {
            Ok(_) => {},
            Err(e) => {
                return Err(e);
            },
        }
        self.instruction_sbc()
    }

    pub fn instruction_rla(&mut self) -> (r: Result<(), EmuError>)
        requires
            board_wf(old(self)@),
        ensures
            board_wf(final(self)@),
            ({
                let (b2, r2) = spec_instr_rla(old(self)@);
                &&& final(self)@ == b2
                &&& r == r2
            }),
    {
        match self.instruction_rol() {
            Ok(_) => {},
            Err(e) => {
                return Err(e);
            },
        }
        self.instruction_and()
    }

    pub fn instruction_rra(&mut self) -> (r: Result<(), EmuError>)
        requires
            board_wf(old(self)@),
        ensures
            board_wf(final(self)@),
            ({
                let (b2, r2) = spec_instr_rra(old(self)@);
                &&& final(self)@ == b2
                &&& r == r2
            }),
    {
        match self.instruction_ror() {
            Ok(_) => {},
            Err(e) => {
                return Err(e);
            },
        }
        self.instruction_adc()
    }

    pub fn instruction_slo(&mut self) -> (r: Result<(), EmuError>)
        requires
            board_wf(old(self)@),
        ensures
            board_wf(final(self)@),
            ({
                let (b2, r2) = spec_instr_slo(old(self)@);
                &&& final(self)@ == b2
                &&& r == r2
            }),
    {
        match self.instruction_asl() {
            Ok(_) => {},
            Err(e) => {
                return Err(e);
            },
        }
        self.instruction_ora()
    }

    pub fn instruction_sre(&mut self) -> (r: Result<(), EmuError>)
        requires
            board_wf(old(self)@),
        ensures
            board_wf(final(self)@),
            ({
                let (b2, r2) = spec_instr_sre(old(self)@);
                &&& final(self)@ == b2
                &&& r == r2
            }),
    {
        match self.instruction_lsr() {
            Ok(_) => {},
            Err(e) => {
                return Err(e);
            },
        }
        self.instruction_eor()
    }

    /// Applies one decoded instruction's transition.
    pub fn execute_instruction(&mut self, instruction: Instruction) -> (r: Result<(), EmuError>)
        requires
            board_wf(old(self)@),
        ensures
            board_wf(final(self)@),
            ({
                let (b2, r2) = spec_execute_instruction(old(self)@, instruction);
                &&& final(self)@ == b2
                &&& r == r2
            }),
    {
        match instruction {
            Instruction::ADC => self.instruction_adc(),
            Instruction::AND => self.instruction_and(),
            Instruction::ASL => self.instruction_asl(),
            Instruction::BIT => self.instruction_bit(),
            Instruction::BCC => self.instruction_bcc(),
            Instruction::BCS => self.instruction_bcs(),
            Instruction::BEQ => self.instruction_beq(),
            Instruction::BMI => self.instruction_bmi(),
            Instruction::BNE => self.instruction_bne(),
            Instruction::BPL => self.instruction_bpl(),
            Instruction::BVC => self.instruction_bvc(),
            Instruction::BVS => self.instruction_bvs(),
            Instruction::BRK => self.instruction_brk(),
            Instruction::CLC => self.instruction_clc(),
            Instruction::CLD => self.instruction_cld(),
            Instruction::CLI => self.instruction_cli(),
            Instruction::CLV => self.instruction_clv(),
            Instruction::CMP => self.instruction_cmp(),
            Instruction::CPX => self.instruction_cpx(),
            Instruction::CPY => self.instruction_cpy(),
            Instruction::DEC => self.instruction_dec(),
            Instruction::DEX => self.instruction_dex(),
            Instruction::DEY => self.instruction_dey(),
            Instruction::EOR => self.instruction_eor(),
            Instruction::INC => self.instruction_inc(),
            Instruction::INX => self.instruction_inx(),
            Instruction::INY => self.instruction_iny(),
            Instruction::JMP => self.instruction_jmp(),
            Instruction::JSR => self.instruction_jsr(),
            Instruction::LDA => self.instruction_lda(),
            Instruction::LDX => self.instruction_ldx(),
            Instruction::LDY => self.instruction_ldy(),
            Instruction::LSR => self.instruction_lsr(),
            Instruction::ORA => self.instruction_ora(),
            Instruction::PHA => self.instruction_pha(),
            Instruction::PHP => self.instruction_php(),
            Instruction::PLA => self.instruction_pla(),
            Instruction::PLP => self.instruction_plp(),
            Instruction::ROL => self.instruction_rol(),
            Instruction::ROR => self.instruction_ror(),
            Instruction::RTI => self.instruction_rti(),
            Instruction::RTS => self.instruction_rts(),
            Instruction::SBC => self.instruction_sbc(),
            Instruction::SEC => self.instruction_sec(),
            Instruction::SED => self.instruction_sed(),
            Instruction::SEI => self.instruction_sei(),
            Instruction::STA => self.instruction_sta(),
            Instruction::STX => self.instruction_stx(),
            Instruction::STY => self.instruction_sty(),
            Instruction::TAX => self.instruction_tax(),
            Instruction::TAY => self.instruction_tay(),
            Instruction::TSX => self.instruction_tsx(),
            Instruction::TXA => self.instruction_txa(),
            Instruction::TXS => self.instruction_txs(),
            Instruction::TYA => self.instruction_tya(),
            Instruction::ALR => self.instruction_alr(),
            Instruction::ANC => self.instruction_anc(),
            Instruction::ARR => self.instruction_arr(),
            Instruction::AXS => self.instruction_axs(),
            Instruction::LAX => self.instruction_lax(),
            Instruction::SAX => self.instruction_sax(),
            Instruction::DCP => self.instruction_dcp(),
            Instruction::ISC => self.instruction_isc(),
            Instruction::RLA => self.instruction_rla(),
            Instruction::RRA => self.instruction_rra(),
            Instruction::SLO => self.instruction_slo(),
            Instruction::SRE => self.instruction_sre(),
            Instruction::NOP => self.instruction_nop(),
            Instruction::SKB => self.instruction_skb(),
            Instruction::IGN => self.instruction_ign(),
        }
    }
}

} // verus!
