//! The processor status register: eight discrete flags packed into one byte.
//!
//! Bit layout (low to high): carry, zero, interrupt-disable, decimal mode
//! (settable but unused by this console), break command, unused (forced on
//! some paths), overflow, negative.

use vstd::prelude::*;

use crate::bits::{get_bit, set_bit, spec_get_bit, spec_set_bit};

verus! {

/// One of the eight status flags.
#[derive(Clone, Copy, Debug, PartialEq, Eq, Structural)]
pub enum StatusFlag {
    Carry,
    Zero,
    InterruptDisable,
    DecimalMode,
    BreakCommand,
    Unused,
    Overflow,
    Negative,
}

/// The bit position a flag occupies in the packed status byte.
pub open spec fn spec_flag_bit(flag: StatusFlag) -> u8 {
    match flag {
        StatusFlag::Carry => 0,
        StatusFlag::Zero => 1,
        StatusFlag::InterruptDisable => 2,
        StatusFlag::DecimalMode => 3,
        StatusFlag::BreakCommand => 4,
        StatusFlag::Unused => 5,
        StatusFlag::Overflow => 6,
        StatusFlag::Negative => 7,
    }
}

pub open spec fn spec_get_status_flag(status: u8, flag: StatusFlag) -> bool {
    spec_get_bit(status, spec_flag_bit(flag))
}

pub open spec fn spec_set_status_flag(status: u8, flag: StatusFlag, value: bool) -> u8 {
    spec_set_bit(status, spec_flag_bit(flag), value)
}

fn flag_bit(flag: StatusFlag) -> (r: u8)
    ensures
        r == spec_flag_bit(flag),
{
    match flag {
        StatusFlag::Carry => 0,
        StatusFlag::Zero => 1,
        StatusFlag::InterruptDisable => 2,
        StatusFlag::DecimalMode => 3,
        StatusFlag::BreakCommand => 4,
        StatusFlag::Unused => 5,
        StatusFlag::Overflow => 6,
        StatusFlag::Negative => 7,
    }
}

/// Whether `flag` is set in the packed status byte.
pub fn get_status_flag(status: u8, flag: StatusFlag) -> (r: bool)
    ensures
        r == spec_get_status_flag(status, flag),
{
    let bit = flag_bit(flag);
    get_bit(status, bit)
}

/// The packed status byte with `flag` forced to `value`.
pub fn set_status_flag(status: u8, flag: StatusFlag, value: bool) -> (r: u8)
    ensures
        r == spec_set_status_flag(status, flag, value),
{
    let bit = flag_bit(flag);
    let mut status = status;
    set_bit(&mut status, bit, value);
    status
}

/// The status register unpacked into its eight flags.
#[derive(Clone, Copy, Debug, PartialEq, Eq, Structural)]
pub struct CpuStatusFlags {
    pub carry: bool,
    pub zero: bool,
    pub interrupt_disable: bool,
    pub decimal_mode: bool,
    pub break_command: bool,
    pub unused: bool,
    pub overflow: bool,
    pub negative: bool,
}

/// The packed byte a set of flags encodes to.
pub open spec fn spec_flags_to_bits(f: CpuStatusFlags) -> u8 {
    ((if f.carry {
        1u8
    } else {
        0u8
    }) | ((if f.zero {
        1u8
    } else {
        0u8
    }) << 1) | ((if f.interrupt_disable {
        1u8
    } else {
        0u8
    }) << 2) | ((if f.decimal_mode {
        1u8
    } else {
        0u8
    }) << 3) | ((if f.break_command {
        1u8
    } else {
        0u8
    }) << 4) | ((if f.unused {
        1u8
    } else {
        0u8
    }) << 5) | ((if f.overflow {
        1u8
    } else {
        0u8
    }) << 6) | ((if f.negative {
        1u8
    } else {
        0u8
    }) << 7)) as u8
}

/// The flags a packed byte decodes to.
pub open spec fn spec_flags_from_bits(value: u8) -> CpuStatusFlags {
    CpuStatusFlags {
        carry: value & 0x01 != 0,
        zero: value & 0x02 != 0,
        interrupt_disable: value & 0x04 != 0,
        decimal_mode: value & 0x08 != 0,
        break_command: value & 0x10 != 0,
        unused: value & 0x20 != 0,
        overflow: value & 0x40 != 0,
        negative: value & 0x80 != 0,
    }
}

impl CpuStatusFlags {
    /// Unpacks a status byte into its eight flags.
    pub fn from_bits(value: u8) -> (r: CpuStatusFlags)
        ensures
            r == spec_flags_from_bits(value),
    {
        CpuStatusFlags {
            carry: value & 0x01 != 0,
            zero: value & 0x02 != 0,
            interrupt_disable: value & 0x04 != 0,
            decimal_mode: value & 0x08 != 0,
            break_command: value & 0x10 != 0,
            unused: value & 0x20 != 0,
            overflow: value & 0x40 != 0,
            negative: value & 0x80 != 0,
        }
    }

    /// Packs the eight flags back into a status byte.
    pub fn to_bits(self) -> (r: u8)
        ensures
            r == spec_flags_to_bits(self),
    {
        (if self.carry {
            1u8
        } else {
            0u8
        }) | ((if self.zero {
            1u8
        } else {
            0u8
        }) << 1) | ((if self.interrupt_disable {
            1u8
        } else {
            0u8
        }) << 2) | ((if self.decimal_mode {
            1u8
        } else {
            0u8
        }) << 3) | ((if self.break_command {
            1u8
        } else {
            0u8
        }) << 4) | ((if self.unused {
            1u8
        } else {
            0u8
        }) << 5) | ((if self.overflow {
            1u8
        } else {
            0u8
        }) << 6) | ((if self.negative {
            1u8
        } else {
            0u8
        }) << 7)
    }
}

/// Packing and unpacking the status byte are mutually inverse: decoding any
/// byte and re-encoding it yields the byte back, and encoding any set of
/// flags and decoding it yields the flags back.
pub proof fn lemma_status_bits_round_trip(value: u8, f: CpuStatusFlags)
    ensures
        spec_flags_to_bits(spec_flags_from_bits(value)) == value,
        spec_flags_from_bits(spec_flags_to_bits(f)) == f,
{
    assert((((if (value & 0x01 != 0) {
        1u8
    } else {
        0u8
    }) | ((if (value & 0x02 != 0) {
        1u8
    } else {
        0u8
    }) << 1) | ((if (value & 0x04 != 0) {
        1u8
    } else {
        0u8
    }) << 2) | ((if (value & 0x08 != 0) {
        1u8
    } else {
        0u8
    }) << 3) | ((if (value & 0x10 != 0) {
        1u8
    } else {
        0u8
    }) << 4) | ((if (value & 0x20 != 0) {
        1u8
    } else {
        0u8
    }) << 5) | ((if (value & 0x40 != 0) {
        1u8
    } else {
        0u8
    }) << 6) | ((if (value & 0x80 != 0) {
        1u8
    } else {
        0u8
    }) << 7)) as u8) == value) by (bit_vector);
    let b0 = f.carry;
    let b1 = f.zero;
    let b2 = f.interrupt_disable;
    let b3 = f.decimal_mode;
    let b4 = f.break_command;
    let b5 = f.unused;
    let b6 = f.overflow;
    let b7 = f.negative;
    let b = spec_flags_to_bits(f);
    assert({
        &&& (b & 0x01 != 0) == b0
        &&& (b & 0x02 != 0) == b1
        &&& (b & 0x04 != 0) == b2
        &&& (b & 0x08 != 0) == b3
        &&& (b & 0x10 != 0) == b4
        &&& (b & 0x20 != 0) == b5
        &&& (b & 0x40 != 0) == b6
        &&& (b & 0x80 != 0) == b7
    }) by (bit_vector)
        requires
            b == (((if b0 {
                1u8
            } else {
                0u8
            }) | ((if b1 {
                1u8
            } else {
                0u8
            }) << 1) | ((if b2 {
                1u8
            } else {
                0u8
            }) << 2) | ((if b3 {
                1u8
            } else {
                0u8
            }) << 3) | ((if b4 {
                1u8
            } else {
                0u8
            }) << 4) | ((if b5 {
                1u8
            } else {
                0u8
            }) << 5) | ((if b6 {
                1u8
            } else {
                0u8
            }) << 6) | ((if b7 {
                1u8
            } else {
                0u8
            }) << 7)) as u8),
    ;
}

} // verus!
