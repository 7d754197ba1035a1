//! Byte- and word-level helpers shared by the processor, the bus and the
//! cartridge logic.

use vstd::prelude::*;

verus! {

/// Whether bit `bit` of `value` is set.
pub open spec fn spec_get_bit(value: u8, bit: u8) -> bool {
    (value >> bit) & 1 != 0
}

/// Bit `bit` of `value` forced to `set`, all other bits kept.
pub open spec fn spec_set_bit(value: u8, bit: u8, set: bool) -> u8 {
    if set {
        value | (1u8 << bit)
    } else {
        value & !(1u8 << bit)
    }
}

/// The 16-bit word with high byte `high` and low byte `low`.
pub open spec fn spec_pack_u16(high: u8, low: u8) -> u16 {
    ((high as u16) << 8) | (low as u16)
}

/// The (high, low) bytes of `val`.
pub open spec fn spec_unpack_u16(val: u16) -> (u8, u8) {
    ((val >> 8) as u8, (val & 0xff) as u8)
}

/// Whether two addresses lie in different 256-byte pages.
pub open spec fn spec_is_page_crossed(addr1: u16, addr2: u16) -> bool {
    (addr1 & 0xFF00) != (addr2 & 0xFF00)
}

pub fn get_bit(value: u8, bit: u8) -> (r: bool)
    requires
        bit < 8,
    ensures
        r == spec_get_bit(value, bit),
{
    (value >> bit) & 1 != 0
}

pub fn set_bit(value: &mut u8, bit: u8, set: bool)
    requires
        bit < 8,
    ensures
        *final(value) == spec_set_bit(*old(value), bit, set),
{
    if set {
        *value = *value | (1u8 << bit);
    } else {
        *value = *value & !(1u8 << bit);
    }
}

/// Two bytes packed into a 16-bit word.
pub fn pack_u16(high: u8, low: u8) -> (r: u16)
    ensures
        r == spec_pack_u16(high, low),
{
    ((high as u16) << 8) | (low as u16)
}

/// A 16-bit word split into its (high, low) bytes.
pub fn unpack_u16(val: u16) -> (r: (u8, u8))
    ensures
        r == spec_unpack_u16(val),
{
    let low = (val & 0xff) as u8;
    let high = (val >> 8) as u8;
    (high, low)
}

/// Whether an address computation left its 256-byte page, which costs the
/// processor one extra hardware cycle on the modes that care.
pub fn is_page_crossed(addr1: u16, addr2: u16) -> (r: bool)
    ensures
        r == spec_is_page_crossed(addr1, addr2),
{
    (addr1 & 0xFF00) != (addr2 & 0xFF00)
}

} // verus!
