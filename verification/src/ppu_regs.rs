//! The video unit's eight memory-mapped registers, as bit-field structs with
//! exact encode/decode contracts, plus the two write-twice latches (scroll
//! and address).

use vstd::prelude::*;

use crate::bits::spec_pack_u16;
use crate::EmuError;

verus! {

/// The control register: nametable base, address increment, pattern-table
/// selectors, sprite size and interrupt enable.
#[derive(Clone, Copy, Debug, PartialEq, Eq, Structural)]
pub struct PpuControlRegister {
    /// Nametable selector, two bits.
    pub nametable_address: u8,
    /// Address increment per data-port access: false = 1, true = 32.
    pub vram_increment: bool,
    pub sprite_pattern_table_address: bool,
    pub background_pattern_table_address: bool,
    /// false = 8x8 sprites, true = 8x16.
    pub sprite_size: bool,
    pub master_slave_mode: bool,
    pub nmi_enable: bool,
}

pub open spec fn spec_control_from_bits(value: u8) -> PpuControlRegister {
    PpuControlRegister {
        nametable_address: (value & 0b11) as u8,
        vram_increment: value & 0b100 != 0,
        sprite_pattern_table_address: value & 0b1000 != 0,
        background_pattern_table_address: value & 0b10000 != 0,
        sprite_size: value & 0b100000 != 0,
        master_slave_mode: value & 0b1000000 != 0,
        nmi_enable: value & 0b10000000 != 0,
    }
}

impl PpuControlRegister {
    pub fn from_bits(value: u8) -> (r: PpuControlRegister)
        ensures
            r == spec_control_from_bits(value),
    {
        PpuControlRegister {
            nametable_address: value & 0b11,
            vram_increment: value & 0b100 != 0,
            sprite_pattern_table_address: value & 0b1000 != 0,
            background_pattern_table_address: value & 0b10000 != 0,
            sprite_size: value & 0b100000 != 0,
            master_slave_mode: value & 0b1000000 != 0,
            nmi_enable: value & 0b10000000 != 0,
        }
    }

    pub fn default() -> (r: PpuControlRegister)
        ensures
            r == spec_control_from_bits(0),
    {
        PpuControlRegister::from_bits(0)
    }

    /// Base address of the selected nametable in video space.
    pub fn nametable_address_in_ppu_bus(&self) -> (r: u16)
        requires
            self.nametable_address < 4,
        ensures
            r == 0x2000 + self.nametable_address * 0x400,
    {
        match self.nametable_address {
            0 => 0x2000,
            1 => 0x2400,
            2 => 0x2800,
            _ => 0x2C00,
        }
    }

    /// How far the address register moves per data-port access.
    pub fn vram_increment_value(&self) -> (r: u8)
        ensures
            r == (if self.vram_increment {
                32u8
            } else {
                1u8
            }),
    {
        if self.vram_increment {
            32
        } else {
            1
        }
    }

    pub fn sprite_pattern_table_address_in_ppu_bus(&self) -> (r: u16)
        ensures
            r == (if self.sprite_pattern_table_address {
                0x1000u16
            } else {
                0u16
            }),
    {
        if self.sprite_pattern_table_address {
            0x1000
        } else {
            0x0000
        }
    }

    pub fn background_pattern_table_address_in_ppu_bus(&self) -> (r: u16)
        ensures
            r == (if self.background_pattern_table_address {
                0x1000u16
            } else {
                0u16
            }),
    {
        if self.background_pattern_table_address {
            0x1000
        } else {
            0x0000
        }
    }

    pub fn sprite_size_in_pixels(&self) -> (r: u8)
        ensures
            r == (if self.sprite_size {
                16u8
            } else {
                8u8
            }),
    {
        if self.sprite_size {
            16
        } else {
            8
        }
    }
}

/// The mask register: rendering switches and colour emphasis.
#[derive(Clone, Copy, Debug, PartialEq, Eq, Structural)]
pub struct PpuMaskRegister {
    pub grayscale: bool,
    pub show_background_left: bool,
    pub show_sprites_left: bool,
    pub show_background: bool,
    pub show_sprites: bool,
    pub emphasize_red: bool,
    pub emphasize_green: bool,
    pub emphasize_blue: bool,
}

pub open spec fn spec_mask_from_bits(value: u8) -> PpuMaskRegister {
    PpuMaskRegister {
        grayscale: value & 0b1 != 0,
        show_background_left: value & 0b10 != 0,
        show_sprites_left: value & 0b100 != 0,
        show_background: value & 0b1000 != 0,
        show_sprites: value & 0b10000 != 0,
        emphasize_red: value & 0b100000 != 0,
        emphasize_green: value & 0b1000000 != 0,
        emphasize_blue: value & 0b10000000 != 0,
    }
}

impl PpuMaskRegister {
    pub fn from_bits(value: u8) -> (r: PpuMaskRegister)
        ensures
            r == spec_mask_from_bits(value),
    {
        PpuMaskRegister {
            grayscale: value & 0b1 != 0,
            show_background_left: value & 0b10 != 0,
            show_sprites_left: value & 0b100 != 0,
            show_background: value & 0b1000 != 0,
            show_sprites: value & 0b10000 != 0,
            emphasize_red: value & 0b100000 != 0,
            emphasize_green: value & 0b1000000 != 0,
            emphasize_blue: value & 0b10000000 != 0,
        }
    }

    pub fn default() -> (r: PpuMaskRegister)
        ensures
            r == spec_mask_from_bits(0),
    {
        PpuMaskRegister::from_bits(0)
    }
}

/// The status register: the three readable event flags.
#[derive(Clone, Copy, Debug, PartialEq, Eq, Structural)]
pub struct PpuStatusRegister {
    pub vblank: bool,
    pub sprite_0_hit: bool,
    pub sprite_overflow: bool,
}

/// The byte a status read returns: flags in the top three bits.
pub open spec fn spec_status_to_bits(s: PpuStatusRegister) -> u8 {
    (((if s.vblank {
        0x80u8
    } else {
        0u8
    }) | (if s.sprite_0_hit {
        0x40u8
    } else {
        0u8
    })) | (if s.sprite_overflow {
        0x20u8
    } else {
        0u8
    })) as u8
}

impl PpuStatusRegister {
    pub fn default() -> (r: PpuStatusRegister)
        ensures
            r == (PpuStatusRegister { vblank: false, sprite_0_hit: false, sprite_overflow: false }),
    {
        PpuStatusRegister { vblank: false, sprite_0_hit: false, sprite_overflow: false }
    }

    pub fn to_bits(self) -> (r: u8)
        ensures
            r == spec_status_to_bits(self),
    {
        (if self.vblank {
            0x80u8
        } else {
            0u8
        }) | (if self.sprite_0_hit {
            0x40u8
        } else {
            0u8
        }) | (if self.sprite_overflow {
            0x20u8
        } else {
            0u8
        })
    }
}

/// The scroll latch: first write sets X, second sets Y.
#[derive(Clone, Copy, Debug, PartialEq, Eq, Structural)]
pub struct PpuScrollRegister {
    pub x: u8,
    pub y: u8,
    /// Whether the next write lands on Y.
    pub on_y: bool,
}

pub open spec fn spec_scroll_write(s: PpuScrollRegister, value: u8) -> PpuScrollRegister {
    if s.on_y {
        PpuScrollRegister { y: value, on_y: false, ..s }
    } else {
        PpuScrollRegister { x: value, on_y: true, ..s }
    }
}

impl PpuScrollRegister {
    pub fn default() -> (r: PpuScrollRegister)
        ensures
            r == (PpuScrollRegister { x: 0, y: 0, on_y: false }),
    {
        PpuScrollRegister { x: 0, y: 0, on_y: false }
    }

    /// Writes one half of the scroll position and flips the latch.
    pub fn write(&mut self, value: u8)
        ensures
            *final(self) == spec_scroll_write(*old(self), value),
    {
        if self.on_y {
            self.y = value;
            self.on_y = false;
        } else {
            self.x = value;
            self.on_y = true;
        }
    }

    /// Returns the latch to its first-write state.
    pub fn reset_latch(&mut self)
        ensures
            *final(self) == (PpuScrollRegister { on_y: false, ..*old(self) }),
    {
        self.on_y = false;
    }
}

/// The video address latch: two writes form a 14-bit address, high byte
/// first; an address past `0x3FFF` is out of the video space.
#[derive(Clone, Copy, Debug, PartialEq, Eq, Structural)]
pub struct PpuAddressRegister {
    pub high: u8,
    pub low: u8,
    /// Whether the next write lands on the high byte.
    pub high_ptr: bool,
}

pub open spec fn spec_addr_get(a: PpuAddressRegister) -> u16 {
    spec_pack_u16(a.high, a.low)
}

/// One write into the latch: the error is reported after the byte lands but
/// before the latch flips, as the hardware model does.
pub open spec fn spec_addr_update(a: PpuAddressRegister, value: u8) -> (
    PpuAddressRegister,
    Result<(), EmuError>,
) {
    let a1 = if a.high_ptr {
        PpuAddressRegister { high: value, ..a }
    } else {
        PpuAddressRegister { low: value, ..a }
    };
    if spec_addr_get(a1) > 0x3FFF {
        (a1, Err(EmuError::PpuAddressOutOfRange { addr: spec_addr_get(a1) }))
    } else {
        (PpuAddressRegister { high_ptr: !a1.high_ptr, ..a1 }, Ok(()))
    }
}

/// One increment of the latched address by `inc`, carrying into the high
/// byte on low-byte wrap-around.
pub open spec fn spec_addr_increment(a: PpuAddressRegister, inc: u8) -> (
    PpuAddressRegister,
    Result<(), EmuError>,
) {
    let low2 = crate::cpu::w_add8(a.low, inc);
    let a1 = if low2 < a.low {
        PpuAddressRegister { low: low2, high: crate::cpu::w_add8(a.high, 1), ..a }
    } else {
        PpuAddressRegister { low: low2, ..a }
    };
    if spec_addr_get(a1) > 0x3FFF {
        (a1, Err(EmuError::PpuAddressOutOfRange { addr: spec_addr_get(a1) }))
    } else {
        (a1, Ok(()))
    }
}

impl PpuAddressRegister {
    pub fn default() -> (r: PpuAddressRegister)
        ensures
            r == (PpuAddressRegister { high: 0, low: 0, high_ptr: false }),
    {
        PpuAddressRegister { high: 0, low: 0, high_ptr: false }
    }

    /// Returns the latch to its high-byte-first state.
    pub fn reset_latch(&mut self)
        ensures
            *final(self) == (PpuAddressRegister { high_ptr: true, ..*old(self) }),
    {
        self.high_ptr = true;
    }

    /// Loads a full 16-bit address at once.
    pub fn set(&mut self, value: u16)
        ensures
            *final(self) == (PpuAddressRegister {
                high: (value >> 8) as u8,
                low: (value & 0xFF) as u8,
                ..*old(self)
            }),
    {
        self.high = (value >> 8) as u8;
        self.low = (value & 0xFF) as u8;
    }

    /// The latched address.
    pub fn get(&self) -> (r: u16)
        ensures
            r == spec_addr_get(*self),
    {
        crate::bits::pack_u16(self.high, self.low)
    }

    /// One byte of a two-write address load.
    pub fn update(&mut self, value: u8) -> (r: Result<(), EmuError>)
        ensures
            (*final(self), r) == spec_addr_update(*old(self), value),
    {
        if self.high_ptr {
            self.high = value;
        } else {
            self.low = value;
        }
        if self.get() > 0x3FFF {
            let addr = self.get();
            return Err(EmuError::PpuAddressOutOfRange { addr });
        }
        self.high_ptr = !self.high_ptr;
        Ok(())
    }

    /// Advances the address after a data-port access.
    pub fn increment(&mut self, inc: u8) -> (r: Result<(), EmuError>)
        ensures
            (*final(self), r) == spec_addr_increment(*old(self), inc),
    {
        let lo = self.low;
        self.low = self.low.wrapping_add(inc);
        if self.low < lo {
            self.high = self.high.wrapping_add(1);
        }
        if self.get() > 0x3FFF {
            let addr = self.get();
            return Err(EmuError::PpuAddressOutOfRange { addr });
        }
        Ok(())
    }
}

} // verus!
