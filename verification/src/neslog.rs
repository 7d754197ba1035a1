//! The golden execution trace: one line per instruction, holding the
//! program counter, the opcode and raw operand bytes, the disassembly text,
//! every register and flag, the video unit's frame/dot counters and the
//! cumulative cycle count.  Conformance means reproducing every field, line
//! for line.
//!
//! The format is fixed-column: program counter at 0, opcode at 6, operand
//! bytes at 9 and 12 (blank when absent), an undocumented-opcode marker at
//! 15, the mnemonic at 16, the operand display up to the register block
//! that starts with `A:` at column 48, then `X:`, `Y:`, `P:`, `SP:`, the
//! `PPU:` pair and the `CYC:` count running to the end of the line.

use vstd::prelude::*;

use crate::cpu::CpuState;
use crate::status::spec_flags_to_bits;

verus! {

/// One parsed trace line.
pub struct NESLog {
    pub reg_pc: u16,
    pub opcode: u8,
    /// The raw operand bytes: second byte in the high half, first in the
    /// low; zero when the instruction has none.
    pub bytes: u16,
    /// The three-letter mnemonic.
    pub instruction_abbr: Vec<u8>,
    /// The operand display, trimmed.
    pub addressing_display: Vec<u8>,
    pub reg_a: u8,
    pub reg_x: u8,
    pub reg_y: u8,
    pub reg_status: u8,
    pub reg_sp: u8,
    pub cpu_cycles: u64,
    pub ppu_frames: u32,
    pub ppu_cycles: u32,
}

pub open spec fn spec_is_hex(c: u8) -> bool {
    (0x30 <= c <= 0x39) || (0x41 <= c <= 0x46) || (0x61 <= c <= 0x66)
}

pub open spec fn spec_hex_val(c: u8) -> int {
    if 0x30 <= c <= 0x39 {
        c - 0x30
    } else if 0x41 <= c <= 0x46 {
        c - 0x41 + 10
    } else {
        c - 0x61 + 10
    }
}

pub open spec fn spec_is_digit(c: u8) -> bool {
    0x30 <= c <= 0x39
}

/// The value of the two hex digits at `p`.
pub open spec fn spec_hex2(s: Seq<u8>, p: int) -> int {
    spec_hex_val(s[p]) * 16 + spec_hex_val(s[p + 1])
}

pub open spec fn spec_hex2_ok(s: Seq<u8>, p: int) -> bool {
    spec_is_hex(s[p]) && spec_is_hex(s[p + 1])
}

/// A right-aligned decimal field of width three: blanks may precede the
/// digits.
pub open spec fn spec_dec3_ok(s: Seq<u8>, p: int) -> bool {
    ||| (spec_is_digit(s[p]) && spec_is_digit(s[p + 1]) && spec_is_digit(s[p + 2]))
    ||| (s[p] == 0x20 && spec_is_digit(s[p + 1]) && spec_is_digit(s[p + 2]))
    ||| (s[p] == 0x20 && s[p + 1] == 0x20 && spec_is_digit(s[p + 2]))
}

pub open spec fn spec_dec3(s: Seq<u8>, p: int) -> int {
    if s[p] != 0x20 {
        (s[p] - 0x30) * 100 + (s[p + 1] - 0x30) * 10 + (s[p + 2] - 0x30)
    } else if s[p + 1] != 0x20 {
        (s[p + 1] - 0x30) * 10 + (s[p + 2] - 0x30)
    } else {
        (s[p + 2] - 0x30) as int
    }
}

/// The decimal number the digits from `p` up to `i` spell, read left to
/// right.
pub open spec fn spec_dec_value(s: Seq<u8>, p: int, i: int) -> int
    decreases i - p,
{
    if i <= p {
        0
    } else {
        spec_dec_value(s, p, i - 1) * 10 + (s[i - 1] - 0x30)
    }
}

pub open spec fn spec_all_digits(s: Seq<u8>, p: int) -> bool {
    forall|k: int| p <= k < s.len() ==> spec_is_digit(#[trigger] s[k])
}

fn is_hex(c: u8) -> (r: bool)
    ensures
        r == spec_is_hex(c),
{
    (0x30 <= c && c <= 0x39) || (0x41 <= c && c <= 0x46) || (0x61 <= c && c <= 0x66)
}

fn hex_val(c: u8) -> (r: u8)
    requires
        spec_is_hex(c),
    ensures
        r == spec_hex_val(c),
{
    if 0x30 <= c && c <= 0x39 {
        c - 0x30
    } else if 0x41 <= c && c <= 0x46 {
        c - 0x41 + 10
    } else {
        c - 0x61 + 10
    }
}

/// Parses the two hex digits at `p`.
fn parse_hex2(s: &Vec<u8>, p: usize) -> (r: Option<u8>)
    requires
        p + 2 <= s@.len(),
    ensures
        match r {
            Some(v) => spec_hex2_ok(s@, p as int) && v == spec_hex2(s@, p as int),
            None => !spec_hex2_ok(s@, p as int),
        },
{
    let _n = s.len();  // pins the length into the machine's index range
    if is_hex(s[p]) && is_hex(s[p + 1]) {
        Some(hex_val(s[p]) * 16 + hex_val(s[p + 1]))
    } else {
        None
    }
}

/// Parses the right-aligned three-character decimal field at `p`.
fn parse_dec3(s: &Vec<u8>, p: usize) -> (r: Option<u32>)
    requires
        p + 3 <= s@.len(),
    ensures
        match r {
            Some(v) => spec_dec3_ok(s@, p as int) && v == spec_dec3(s@, p as int),
            None => !spec_dec3_ok(s@, p as int),
        },
{
    let _n = s.len();  // pins the length into the machine's index range
    let c0 = s[p];
    let c1 = s[p + 1];
    let c2 = s[p + 2];
    if c0 != 0x20 {
        if 0x30 <= c0 && c0 <= 0x39 && 0x30 <= c1 && c1 <= 0x39 && 0x30 <= c2 && c2 <= 0x39 {
            Some((c0 - 0x30) as u32 * 100 + (c1 - 0x30) as u32 * 10 + (c2 - 0x30) as u32)
        } else {
            None
        }
    } else if c1 != 0x20 {
        if 0x30 <= c1 && c1 <= 0x39 && 0x30 <= c2 && c2 <= 0x39 {
            Some((c1 - 0x30) as u32 * 10 + (c2 - 0x30) as u32)
        } else {
            None
        }
    } else {
        if 0x30 <= c2 && c2 <= 0x39 {
            Some((c2 - 0x30) as u32)
        } else {
            None
        }
    }
}

/// Parses the decimal digits from `p` to the end of the line.
fn parse_dec_tail(s: &Vec<u8>, p: usize) -> (r: Option<u64>)
    requires
        p < s@.len(),
        s@.len() - p <= 18,
    ensures
        match r {
            Some(v) => spec_all_digits(s@, p as int) && v == spec_dec_value(
                s@,
                p as int,
                s@.len() as int,
            ),
            None => !spec_all_digits(s@, p as int),
        },
{
    let n = s.len();
    let mut acc: u64 = 0;
    let mut i: usize = p;
    while i < n
        invariant
            p <= i <= n,
            n == s@.len(),
            n - p <= 18,
            forall|k: int| p <= k < i ==> spec_is_digit(#[trigger] s@[k]),
            acc == spec_dec_value(s@, p as int, i as int),
            acc <= 0x0DE0_B6B3_A763_FFFF,
        decreases n - i,
    {
        let c = s[i];
        if !(0x30 <= c && c <= 0x39) {
            return None;
        }
        proof {
            lemma_dec_value_bound(s@, p as int, i as int + 1);
        }
        acc = acc * 10 + (c - 0x30) as u64;
        i = i + 1;
    }
    Some(acc)
}

/// A run of at most 18 digits spells a value below `10^18`.
proof fn lemma_dec_value_bound(s: Seq<u8>, p: int, i: int)
    requires
        p <= i,
        i - p <= 18,
        forall|k: int| p <= k < i ==> spec_is_digit(#[trigger] s[k]),
    ensures
        0 <= spec_dec_value(s, p, i) < 0x0DE0_B6B3_A764_0000,
    decreases i - p,
{
    if i > p {
        lemma_dec_value_bound_step(s, p, i, (i - p) as nat);
    }
}

/// The value of `w` digits is below `10^w`.
proof fn lemma_dec_value_bound_step(s: Seq<u8>, p: int, i: int, w: nat)
    requires
        p <= i,
        i - p == w,
        w <= 18,
        forall|k: int| p <= k < i ==> spec_is_digit(#[trigger] s[k]),
    ensures
        0 <= spec_dec_value(s, p, i) < spec_pow10(w),
        spec_pow10(w) <= 0x0DE0_B6B3_A764_0000,
    decreases w,
{
    lemma_pow10_le_18(w);
    if w > 0 {
        lemma_dec_value_bound_step(s, p, i - 1, (w - 1) as nat);
    }
}

pub open spec fn spec_pow10(n: nat) -> int
    decreases n,
{
    if n == 0 {
        1
    } else {
        10 * spec_pow10((n - 1) as nat)
    }
}

proof fn lemma_pow10_pos(w: nat)
    ensures
        spec_pow10(w) >= 1,
    decreases w,
{
    if w > 0 {
        lemma_pow10_pos((w - 1) as nat);
    }
}

proof fn lemma_pow10_mono(a: nat, b: nat)
    requires
        a <= b,
    ensures
        spec_pow10(a) <= spec_pow10(b),
    decreases b - a,
{
    if a < b {
        lemma_pow10_mono(a, (b - 1) as nat);
        lemma_pow10_pos((b - 1) as nat);
    }
}

proof fn lemma_pow10_le_18(w: nat)
    requires
        w <= 18,
    ensures
        1 <= spec_pow10(w) <= 0x0DE0_B6B3_A764_0000,
{
    lemma_pow10_exact();
    lemma_pow10_mono(w, 18);
    lemma_pow10_pos(w);
}

/// The eighteenth power of ten, by unfolding the definition.
proof fn lemma_pow10_exact()
    ensures
        spec_pow10(18) == 0x0DE0_B6B3_A764_0000,
{
    reveal_with_fuel(spec_pow10, 19);
    assert(spec_pow10(18) == 1_000_000_000_000_000_000);
}

/// Whether the fixed separators of a trace line are in place: the spaces
/// between the fields, the marker column, and the register-block labels.
pub open spec fn spec_line_frame_ok(s: Seq<u8>) -> bool {
    &&& s.len() >= 91
    &&& s[4] == 0x20 && s[5] == 0x20
    &&& s[8] == 0x20 && s[11] == 0x20 && s[14] == 0x20
    &&& (s[15] == 0x20 || s[15] == 0x2A)
    &&& (forall|k: int| 16 <= k < 19 ==> 0x41 <= #[trigger] s[k] <= 0x5A)
    &&& s[19] == 0x20
    &&& s[48] == 0x41 && s[49] == 0x3A
    &&& s[52] == 0x20 && s[53] == 0x58 && s[54] == 0x3A
    &&& s[57] == 0x20 && s[58] == 0x59 && s[59] == 0x3A
    &&& s[62] == 0x20 && s[63] == 0x50 && s[64] == 0x3A
    &&& s[67] == 0x20 && s[68] == 0x53 && s[69] == 0x50 && s[70] == 0x3A
    &&& s[73] == 0x20 && s[74] == 0x50 && s[75] == 0x50 && s[76] == 0x55 && s[77] == 0x3A
    &&& s[81] == 0x2C
    &&& s[85] == 0x20 && s[86] == 0x43 && s[87] == 0x59 && s[88] == 0x43 && s[89] == 0x3A
}

/// An operand byte column: two hex digits, or blank.
pub open spec fn spec_byte_col_ok(s: Seq<u8>, p: int) -> bool {
    spec_hex2_ok(s, p) || (s[p] == 0x20 && s[p + 1] == 0x20)
}

/// A well-formed trace line: the fixed separators in place, every numeric
/// field made of the right digits, the operand columns hex or blank, and a
/// cycle count of at most eighteen digits.
pub open spec fn spec_line_ok(s: Seq<u8>) -> bool {
    &&& spec_line_frame_ok(s)
    &&& s.len() - 90 <= 18
    &&& spec_hex2_ok(s, 0) && spec_hex2_ok(s, 2) && spec_hex2_ok(s, 6)
    &&& spec_byte_col_ok(s, 9) && spec_byte_col_ok(s, 12)
    &&& spec_hex2_ok(s, 50) && spec_hex2_ok(s, 55) && spec_hex2_ok(s, 60)
    &&& spec_hex2_ok(s, 65) && spec_hex2_ok(s, 71)
    &&& spec_dec3_ok(s, 78) && spec_dec3_ok(s, 82)
    &&& spec_all_digits(s, 90)
}

/// The raw-operand word a line's byte columns spell: the second byte in the
/// high half, the first in the low; zero when the first column is blank.
pub open spec fn spec_bytes_field(s: Seq<u8>) -> int {
    if s[9] == 0x20 && s[10] == 0x20 {
        0
    } else if s[12] == 0x20 && s[13] == 0x20 {
        spec_hex2(s, 9)
    } else {
        spec_hex2(s, 12) * 256 + spec_hex2(s, 9)
    }
}

impl NESLog {
    /// Parses one line of the golden trace.  A line is parsed if and only
    /// if it is well formed, and every field is then pinned to the digits
    /// in its column.
    pub fn parse_line(line: &Vec<u8>) -> (r: Option<NESLog>)
        ensures
            match r {
                Some(l) => {
                    &&& spec_line_ok(line@)
                    &&& l.reg_pc == spec_hex2(line@, 0) * 256 + spec_hex2(line@, 2)
                    &&& l.opcode == spec_hex2(line@, 6)
                    &&& l.reg_a == spec_hex2(line@, 50)
                    &&& l.reg_x == spec_hex2(line@, 55)
                    &&& l.reg_y == spec_hex2(line@, 60)
                    &&& l.reg_status == spec_hex2(line@, 65)
                    &&& l.reg_sp == spec_hex2(line@, 71)
                    &&& l.ppu_frames == spec_dec3(line@, 78)
                    &&& l.ppu_cycles == spec_dec3(line@, 82)
                    &&& l.cpu_cycles == spec_dec_value(line@, 90, line@.len() as int)
                    &&& l.bytes == spec_bytes_field(line@)
                    &&& l.instruction_abbr@ == line@.subrange(16, 19)
                    &&& l.addressing_display@ == line@.subrange(20, 48)
                },
                None => !spec_line_ok(line@),
            },
    {
        let n = line.len();
        if n < 91 || n - 90 > 18 {
            return None;
        }
        if !(line[4] == 0x20 && line[5] == 0x20 && line[8] == 0x20 && line[11] == 0x20 && line[14]
            == 0x20 && (line[15] == 0x20 || line[15] == 0x2A) && line[19] == 0x20) {
            return None;
        }
        if !(line[16] >= 0x41 && line[16] <= 0x5A && line[17] >= 0x41 && line[17] <= 0x5A
            && line[18] >= 0x41 && line[18] <= 0x5A) {
            return None;
        }
        if !(line[48] == 0x41 && line[49] == 0x3A && line[52] == 0x20 && line[53] == 0x58
            && line[54] == 0x3A && line[57] == 0x20 && line[58] == 0x59 && line[59] == 0x3A
            && line[62] == 0x20 && line[63] == 0x50 && line[64] == 0x3A && line[67] == 0x20
            && line[68] == 0x53 && line[69] == 0x50 && line[70] == 0x3A && line[73] == 0x20
            && line[74] == 0x50 && line[75] == 0x50 && line[76] == 0x55 && line[77] == 0x3A
            && line[81] == 0x2C && line[85] == 0x20 && line[86] == 0x43 && line[87] == 0x59
            && line[88] == 0x43 && line[89] == 0x3A) {
            return None;
        }
        let pc_hi = match parse_hex2(line, 0) {
            Some(v) => v,
            None => {
                return None;
            },
        };
        let pc_lo = match parse_hex2(line, 2) {
            Some(v) => v,
            None => {
                return None;
            },
        };
        let opcode = match parse_hex2(line, 6) {
            Some(v) => v,
            None => {
                return None;
            },
        };
        let b1 = if line[9] == 0x20 && line[10] == 0x20 {
            None
        } else {
            match parse_hex2(line, 9) {
                Some(v) => Some(v),
                None => {
                    return None;
                },
            }
        };
        let b2 = if line[12] == 0x20 && line[13] == 0x20 {
            None
        } else {
            match parse_hex2(line, 12) {
                Some(v) => Some(v),
                None => {
                    return None;
                },
            }
        };
        let bytes: u16 = match (b1, b2) {
            (Some(x), Some(y)) => (y as u16) * 256 + (x as u16),
            (Some(x), None) => x as u16,
            (None, _) => 0,
        };
        let reg_a = match parse_hex2(line, 50) {
            Some(v) => v,
            None => {
                return None;
            },
        };
        let reg_x = match parse_hex2(line, 55) {
            Some(v) => v,
            None => {
                return None;
            },
        };
        let reg_y = match parse_hex2(line, 60) {
            Some(v) => v,
            None => {
                return None;
            },
        };
        let reg_status = match parse_hex2(line, 65) {
            Some(v) => v,
            None => {
                return None;
            },
        };
        let reg_sp = match parse_hex2(line, 71) {
            Some(v) => v,
            None => {
                return None;
            },
        };
        let ppu_frames = match parse_dec3(line, 78) {
            Some(v) => v,
            None => {
                return None;
            },
        };
        let ppu_cycles = match parse_dec3(line, 82) {
            Some(v) => v,
            None => {
                return None;
            },
        };
        let cpu_cycles = match parse_dec_tail(line, 90) {
            Some(v) => v,
            None => {
                return None;
            },
        };
        let mut instruction_abbr: Vec<u8> = Vec::new();
        instruction_abbr.push(line[16]);
        instruction_abbr.push(line[17]);
        instruction_abbr.push(line[18]);
        let mut addressing_display: Vec<u8> = Vec::new();
        let mut k: usize = 20;
        while k < 48
            invariant
                20 <= k <= 48,
                line@.len() >= 91,
                addressing_display@ == line@.subrange(20, k as int),
            decreases 48 - k,
        {
            addressing_display.push(line[k]);
            k = k + 1;
            proof {
                assert(addressing_display@ =~= line@.subrange(20, k as int));
            }
        }
        proof {
            assert(instruction_abbr@ =~= line@.subrange(16, 19));
        }
        Some(
            NESLog {
                reg_pc: (pc_hi as u16) * 256 + (pc_lo as u16),
                opcode,
                bytes,
                instruction_abbr,
                addressing_display,
                reg_a,
                reg_x,
                reg_y,
                reg_status,
                reg_sp,
                cpu_cycles,
                ppu_frames,
                ppu_cycles,
            },
        )
    }
}

/// Whether a processor snapshot matches a trace line: the program counter,
/// the opcode fetched at it, every register, the packed status byte and the
/// cumulative cycle count must all agree.
pub fn assert_cpu_state(expect: &NESLog, actual: &CpuState, opcode_at_pc: u8) -> (r: bool)
    ensures
        r == (expect.reg_pc == actual.reg_pc && expect.opcode == opcode_at_pc && expect.reg_a
            == actual.reg_a && expect.reg_x == actual.reg_x && expect.reg_y == actual.reg_y
            && expect.reg_status == spec_flags_to_bits(actual.reg_status) && expect.reg_sp
            == actual.reg_sp && expect.cpu_cycles == actual.total_cycles),
{
    expect.reg_pc == actual.reg_pc && expect.opcode == opcode_at_pc && expect.reg_a == actual.reg_a
        && expect.reg_x == actual.reg_x && expect.reg_y == actual.reg_y && expect.reg_status
        == actual.reg_status.to_bits() && expect.reg_sp == actual.reg_sp && expect.cpu_cycles
        == actual.total_cycles
}

} // verus!
