//! The video unit as the processor sees it: the eight register ports, the
//! sprite-descriptor memory, the scanline/VBlank counter that raises the
//! non-maskable interrupt, and the pixel framebuffer.  The pixel-rendering
//! pipeline itself is outside this core.

use vstd::prelude::*;

use crate::ppu_regs::{
    spec_addr_get, spec_addr_increment, spec_addr_update, spec_control_from_bits,
    spec_mask_from_bits, spec_scroll_write, spec_status_to_bits, PpuAddressRegister,
    PpuControlRegister, PpuMaskRegister, PpuScrollRegister, PpuStatusRegister,
};
use crate::ram::RamImpl;
use crate::EmuError;

verus! {

/// One decoded sprite descriptor.
#[derive(Clone, Copy, Debug, PartialEq, Eq, Structural)]
pub struct OamSprite {
    pub position_x: u8,
    pub position_y: u8,
    /// Palette selector, two bits.
    pub palette_id: u8,
    /// Pattern-table address of the sprite's tile data.
    pub pattern_table_address: u16,
    pub behind_background: bool,
    pub flip_horizontally: bool,
    pub flip_vertically: bool,
}

/// Object-attribute memory: 64 sprites of 4 bytes each.
pub struct OAM {
    pub data: RamImpl,
}

pub open spec fn oam_wf(oam: Seq<u8>) -> bool {
    oam.len() == 256
}

/// The descriptor fields shared by both sprite heights, decoded from the
/// four bytes of entry `index`; the tile byte is interpreted by the caller.
pub open spec fn spec_oam_common(oam: Seq<u8>, index: u8) -> OamSprite {
    let byte0 = oam[index * 4];
    let byte2 = oam[index * 4 + 2];
    let byte3 = oam[index * 4 + 3];
    OamSprite {
        position_y: byte0,
        position_x: byte3,
        palette_id: (byte2 & 0x03) as u8,
        pattern_table_address: 0,
        behind_background: byte2 & 0x20 != 0,
        flip_horizontally: byte2 & 0x40 != 0,
        flip_vertically: byte2 & 0x80 != 0,
    }
}

/// An 8x8 sprite: the tile byte indexes 16-byte tiles.
pub open spec fn spec_oam_sprite_8x8(oam: Seq<u8>, index: u8) -> OamSprite {
    let byte1 = oam[index * 4 + 1];
    OamSprite { pattern_table_address: (byte1 * 16) as u16, ..spec_oam_common(oam, index) }
}

/// An 8x16 sprite: the tile byte's low bit selects the pattern table and the
/// remaining bits index 32-byte double tiles.
pub open spec fn spec_oam_sprite_8x16(oam: Seq<u8>, index: u8) -> OamSprite {
    let byte1 = oam[index * 4 + 1];
    let tile_index = (byte1 >> 1) as u8;
    OamSprite {
        pattern_table_address: ((byte1 & 1) * 0x1000 + tile_index * 32) as u16,
        ..spec_oam_common(oam, index)
    }
}

impl OAM {
    /// 256 zeroed bytes.
    pub fn new() -> (r: OAM)
        ensures
            r.data@ == Seq::new(256nat, |i: int| 0u8),
    {
        OAM { data: RamImpl::new(256) }
    }

    /// Decodes the fields shared by both sprite heights and hands back the
    /// raw tile byte.
    fn set_common_field(&self, index: u8, sprite: &mut OamSprite) -> (byte1: u8)
        requires
            oam_wf(self.data@),
            index < 64,
        ensures
            ({
                let common = spec_oam_common(self.data@, index);
                &&& final(sprite).position_x == common.position_x
                &&& final(sprite).position_y == common.position_y
                &&& final(sprite).palette_id == common.palette_id
                &&& final(sprite).behind_background == common.behind_background
                &&& final(sprite).flip_horizontally == common.flip_horizontally
                &&& final(sprite).flip_vertically == common.flip_vertically
                &&& final(sprite).pattern_table_address == old(sprite).pattern_table_address
                &&& byte1 == self.data@[index * 4 + 1]
            }),
    {
        let offset: u16 = index as u16 * 4;
        let byte0 = self.read_byte(offset);
        let byte1 = self.read_byte(offset + 1);
        let byte2 = self.read_byte(offset + 2);
        let byte3 = self.read_byte(offset + 3);
        sprite.position_y = byte0;
        sprite.position_x = byte3;
        sprite.palette_id = byte2 & 0x03;
        sprite.behind_background = byte2 & 0x20 != 0;
        sprite.flip_horizontally = byte2 & 0x40 != 0;
        sprite.flip_vertically = byte2 & 0x80 != 0;
        byte1
    }

    fn read_byte(&self, offset: u16) -> (r: u8)
        requires
            oam_wf(self.data@),
            offset < 256,
        ensures
            r == self.data@[offset as int],
    {
        match self.data.read(offset) {
            Ok(b) => b,
            Err(_) => 0,  // unreachable: the descriptor memory is 256 bytes
        }
    }

    /// Decodes sprite `index` in 8x8 mode.
    pub fn get_sprite_8x8(&self, index: u8) -> (r: OamSprite)
        requires
            oam_wf(self.data@),
            index < 64,
        ensures
            r == spec_oam_sprite_8x8(self.data@, index),
    {
        let mut sprite = OamSprite {
            position_x: 0,
            position_y: 0,
            palette_id: 0,
            pattern_table_address: 0,
            behind_background: false,
            flip_horizontally: false,
            flip_vertically: false,
        };
        let byte1 = self.set_common_field(index, &mut sprite);
        sprite.pattern_table_address = (byte1 as u16) * 16;
        sprite
    }

    /// Decodes sprite `index` in 8x16 mode.
    pub fn get_sprite_8x16(&self, index: u8) -> (r: OamSprite)
        requires
            oam_wf(self.data@),
            index < 64,
        ensures
            r == spec_oam_sprite_8x16(self.data@, index),
    {
        let mut sprite = OamSprite {
            position_x: 0,
            position_y: 0,
            palette_id: 0,
            pattern_table_address: 0,
            behind_background: false,
            flip_horizontally: false,
            flip_vertically: false,
        };
        let byte1 = self.set_common_field(index, &mut sprite);
        let tile_index = byte1 >> 1;
        proof {
            assert(byte1 & 1 <= 1 && byte1 >> 1 <= 127) by (bit_vector);
        }
        sprite.pattern_table_address = ((byte1 as u16) & 1) * 0x1000 + (tile_index as u16) * 32;
        sprite
    }
}

/// The 256x240 pixel framebuffer; each pixel holds a 6-bit colour index.
pub struct FrameBuffer {
    pub buffer: RamImpl,
}

impl FrameBuffer {
    pub fn new() -> (r: FrameBuffer)
        ensures
            r.buffer@ == Seq::new((256 * 240) as nat, |i: int| 0u8),
    {
        FrameBuffer { buffer: RamImpl::new(256 * 240) }
    }

    /// Stores a pixel.  Only the low five bits are kept, as the fielded
    /// hardware path this reproduces keeps them.
    pub fn set_pixel(&mut self, x: u8, y: u8, color_idx: u8) -> (r: Result<(), EmuError>)
        requires
            old(self).buffer@.len() == 256 * 240,
        ensures
            final(self).buffer@.len() == 256 * 240,
            y < 240 && color_idx < 64 ==> r is Ok && final(self).buffer@ == old(
                self,
            ).buffer@.update(y * 256 + x, (color_idx & 0x1F) as u8),
            !(y < 240 && color_idx < 64) ==> r == Err::<(), EmuError>(
                EmuError::PixelOutOfRange { x, y, color_idx },
            ) && final(self).buffer@ == old(self).buffer@,
    {
        if y < 240 && color_idx < 64 {
            let idx: u16 = y as u16 * 256 + x as u16;
            let res = self.buffer.write(idx, color_idx & 0x1F);
            Ok(())
        } else {
            Err(EmuError::PixelOutOfRange { x, y, color_idx })
        }
    }

    /// Reads a pixel back, masked to the six colour bits.
    pub fn get_pixel(&self, x: u8, y: u8) -> (r: Result<u8, EmuError>)
        requires
            self.buffer@.len() == 256 * 240,
        ensures
            y < 240 ==> r == Ok::<u8, EmuError>((self.buffer@[y * 256 + x] & 0x3F) as u8),
            y >= 240 ==> r == Err::<u8, EmuError>(EmuError::PixelOutOfRange { x, y, color_idx: 0 }),
    {
        if y < 240 {
            let idx: u16 = y as u16 * 256 + x as u16;
            match self.buffer.read(idx) {
                Ok(b) => Ok(b & 0x3F),
                Err(_) => Ok(0),  // unreachable: the framebuffer is 256*240 bytes
            }
        } else {
            Err(EmuError::PixelOutOfRange { x, y, color_idx: 0 })
        }
    }
}

/// Mathematical state of the video unit.
#[verifier::ext_equal]
pub ghost struct PpuV {
    pub scanline: u16,
    pub cycle: u16,
    pub frame_counter: u64,
    pub nmi_interrupt: bool,
    pub oam: Seq<u8>,
    pub ctrl: PpuControlRegister,
    pub mask: PpuMaskRegister,
    pub status: PpuStatusRegister,
    pub scroll: PpuScrollRegister,
    pub address: PpuAddressRegister,
    pub oam_address: u8,
    pub oam_data: u8,
}

/// Counters inside one frame, descriptor memory complete.
pub open spec fn ppu_wf(p: PpuV) -> bool {
    &&& p.cycle <= 340
    &&& p.scanline <= 261
    &&& p.ctrl.nametable_address < 4
    &&& oam_wf(p.oam)
}

/// The video unit.
pub struct PpuImpl {
    pub scanline: u16,
    pub cycle: u16,
    pub frame_counter: u64,
    pub nmi_interrupt: bool,
    pub oam: OAM,
    pub reg_ppu_controller: PpuControlRegister,
    pub reg_ppu_mask: PpuMaskRegister,
    pub reg_ppu_status: PpuStatusRegister,
    pub reg_scroll: PpuScrollRegister,
    pub reg_address: PpuAddressRegister,
    pub reg_oam_address: u8,
    pub reg_oam_data: u8,
}

impl View for PpuImpl {
    type V = PpuV;

    open spec fn view(&self) -> PpuV {
        PpuV {
            scanline: self.scanline,
            cycle: self.cycle,
            frame_counter: self.frame_counter,
            nmi_interrupt: self.nmi_interrupt,
            oam: self.oam.data@,
            ctrl: self.reg_ppu_controller,
            mask: self.reg_ppu_mask,
            status: self.reg_ppu_status,
            scroll: self.reg_scroll,
            address: self.reg_address,
            oam_address: self.reg_oam_address,
            oam_data: self.reg_oam_data,
        }
    }
}

pub open spec fn spec_initial_ppu() -> PpuV {
    PpuV {
        scanline: 0,
        cycle: 0,
        frame_counter: 0,
        nmi_interrupt: false,
        oam: Seq::new(256nat, |i: int| 0u8),
        ctrl: spec_control_from_bits(0),
        mask: spec_mask_from_bits(0),
        status: PpuStatusRegister { vblank: false, sprite_0_hit: false, sprite_overflow: false },
        scroll: PpuScrollRegister { x: 0, y: 0, on_y: false },
        address: PpuAddressRegister { high: 0, low: 0, high_ptr: false },
        oam_address: 0,
        oam_data: 0,
    }
}

/// A control write: the register is replaced, and the non-maskable interrupt
/// fires at once when enable rises during the vertical blank.
pub open spec fn spec_ppu_write_control(p: PpuV, value: u8) -> PpuV {
    let ctrl = spec_control_from_bits(value);
    let fire = !p.ctrl.nmi_enable && ctrl.nmi_enable && p.status.vblank;
    PpuV { ctrl, nmi_interrupt: if fire {
        true
    } else {
        p.nmi_interrupt
    }, ..p }
}

/// A status read: the caller sees the flags, then the vertical-blank flag
/// clears and both write-twice latches reset.
pub open spec fn spec_ppu_read_status(p: PpuV) -> (PpuV, u8) {
    let value = spec_status_to_bits(p.status);
    (
        PpuV {
            status: PpuStatusRegister { vblank: false, ..p.status },
            address: PpuAddressRegister { high_ptr: true, ..p.address },
            scroll: PpuScrollRegister { on_y: false, ..p.scroll },
            ..p
        },
        value,
    )
}

/// An object-attribute data-port write: the latch takes the value and the
/// descriptor address advances.
pub open spec fn spec_ppu_write_oam_data(p: PpuV, value: u8) -> PpuV {
    PpuV { oam_data: value, oam_address: crate::cpu::w_add8(p.oam_address, 1), ..p }
}

/// One video clock: the dot counter advances; entering scanline 241 raises
/// the vertical blank (and the interrupt when enabled); past the last
/// scanline the frame wraps and the flags clear.
pub open spec fn spec_ppu_clock(p: PpuV) -> PpuV {
    if p.cycle + 1 >= 341 {
        let p1 = PpuV { cycle: 0, scanline: (p.scanline + 1) as u16, ..p };
        let p2 = if p1.scanline == 241 {
            PpuV {
                status: PpuStatusRegister { vblank: true, sprite_0_hit: false, ..p1.status },
                nmi_interrupt: if p1.ctrl.nmi_enable {
                    true
                } else {
                    p1.nmi_interrupt
                },
                ..p1
            }
        } else {
            p1
        };
        if p2.scanline >= 262 {
            PpuV {
                scanline: 0,
                frame_counter: crate::cpu::w_add64(p2.frame_counter, 1),
                nmi_interrupt: false,
                status: PpuStatusRegister { vblank: false, sprite_0_hit: false, ..p2.status },
                ..p2
            }
        } else {
            p2
        }
    } else {
        PpuV { cycle: (p.cycle + 1) as u16, ..p }
    }
}

/// The reset state of the counters and registers; the descriptor memory and
/// latches keep their contents.
pub open spec fn spec_ppu_reset(p: PpuV) -> PpuV {
    PpuV {
        cycle: 340,
        scanline: 240,
        frame_counter: 0,
        ctrl: spec_control_from_bits(0),
        mask: spec_mask_from_bits(0),
        status: PpuStatusRegister { vblank: false, sprite_0_hit: false, sprite_overflow: false },
        ..p
    }
}

impl PpuImpl {
    pub fn new() -> (r: PpuImpl)
        ensures
            r@ == spec_initial_ppu(),
    {
        PpuImpl {
            scanline: 0,
            cycle: 0,
            frame_counter: 0,
            nmi_interrupt: false,
            oam: OAM::new(),
            reg_ppu_controller: PpuControlRegister::default(),
            reg_ppu_mask: PpuMaskRegister::default(),
            reg_ppu_status: PpuStatusRegister::default(),
            reg_scroll: PpuScrollRegister::default(),
            reg_address: PpuAddressRegister::default(),
            reg_oam_address: 0,
            reg_oam_data: 0,
        }
    }

    pub fn write_reg_control(&mut self, value: u8)
        ensures
            final(self)@ == spec_ppu_write_control(old(self)@, value),
    {
        let before_nmi_status = self.reg_ppu_controller.nmi_enable;
        self.reg_ppu_controller = PpuControlRegister::from_bits(value);
        if !before_nmi_status && self.reg_ppu_controller.nmi_enable && self.reg_ppu_status.vblank {
            self.nmi_interrupt = true;
        }
    }

    pub fn write_reg_mask(&mut self, value: u8)
        ensures
            final(self)@ == (PpuV { mask: spec_mask_from_bits(value), ..old(self)@ }),
    {
        self.reg_ppu_mask = PpuMaskRegister::from_bits(value);
    }

    pub fn read_reg_status(&mut self) -> (r: u8)
        ensures
            (final(self)@, r) == spec_ppu_read_status(old(self)@),
    {
        let value = self.reg_ppu_status.to_bits();
        self.reg_ppu_status.vblank = false;
        self.reg_address.reset_latch();
        self.reg_scroll.reset_latch();
        value
    }

    pub fn write_reg_oam_addr(&mut self, value: u8)
        ensures
            final(self)@ == (PpuV { oam_address: value, ..old(self)@ }),
    {
        self.reg_oam_address = value;
    }

    pub fn read_reg_oam_data(&self) -> (r: u8)
        ensures
            r == self@.oam_data,
    {
        self.reg_oam_data
    }

    pub fn write_reg_oam_data(&mut self, value: u8)
        ensures
            final(self)@ == spec_ppu_write_oam_data(old(self)@, value),
    {
        self.reg_oam_data = value;
        self.reg_oam_address = self.reg_oam_address.wrapping_add(1);
    }

    pub fn write_reg_scroll(&mut self, value: u8)
        ensures
            final(self)@ == (PpuV { scroll: spec_scroll_write(old(self)@.scroll, value), ..old(self)@ }),
    {
        self.reg_scroll.write(value);
    }

    pub fn write_reg_address(&mut self, value: u8) -> (r: Result<(), EmuError>)
        ensures
            (final(self)@.address, r) == spec_addr_update(old(self)@.address, value),
            final(self)@ == (PpuV { address: final(self)@.address, ..old(self)@ }),
    {
        self.reg_address.update(value)
    }

    /// Advances the address register by the control register's increment.
    pub fn increment_address(&mut self) -> (r: Result<(), EmuError>)
        ensures
            (final(self)@.address, r) == spec_addr_increment(
                old(self)@.address,
                if old(self)@.ctrl.vram_increment {
                    32u8
                } else {
                    1u8
                },
            ),
            final(self)@ == (PpuV { address: final(self)@.address, ..old(self)@ }),
    {
        let increment = self.reg_ppu_controller.vram_increment_value();
        self.reg_address.increment(increment)
    }

    pub fn reset(&mut self)
        ensures
            final(self)@ == spec_ppu_reset(old(self)@),
    {
        self.cycle = 340;
        self.scanline = 240;
        self.frame_counter = 0;
        self.reg_ppu_controller = PpuControlRegister::default();
        self.reg_ppu_mask = PpuMaskRegister::default();
        self.reg_ppu_status = PpuStatusRegister::default();
    }

    /// One video clock.
    pub fn clock(&mut self)
        requires
            ppu_wf(old(self)@),
        ensures
            final(self)@ == spec_ppu_clock(old(self)@),
            ppu_wf(final(self)@),
    {
        if self.cycle + 1 >= 341 {
            self.cycle = 0;
            self.scanline = self.scanline + 1;
            if self.scanline == 241 {
                self.reg_ppu_status.vblank = true;
                self.reg_ppu_status.sprite_0_hit = false;
                if self.reg_ppu_controller.nmi_enable {
                    self.nmi_interrupt = true;
                }
            }
            if self.scanline >= 262 {
                self.scanline = 0;
                self.frame_counter = self.frame_counter.wrapping_add(1);
                self.nmi_interrupt = false;
                self.reg_ppu_status.vblank = false;
                self.reg_ppu_status.sprite_0_hit = false;
            }
        } else {
            self.cycle = self.cycle + 1;
        }
    }

    /// Whether the non-maskable interrupt line is raised.
    pub fn check_nmi_interrupt(&self) -> (r: bool)
        ensures
            r == self@.nmi_interrupt,
    {
        self.nmi_interrupt
    }

    pub fn clear_nmi_interrupt(&mut self)
        ensures
            final(self)@ == (PpuV { nmi_interrupt: false, ..old(self)@ }),
    {
        self.nmi_interrupt = false;
    }
}

} // verus!
