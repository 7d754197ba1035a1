//! The cartridge: a mapper built from the parsed file plus the mirroring
//! topology the video nametable device consumes.

use vstd::prelude::*;

use crate::mapper::{
    get_mapper_by_id, mapper_wf, spec_built_mapper, spec_mapper_ppu_read, spec_mapper_ppu_write,
    spec_mapper_read, spec_mapper_write, Mapper, MapperV,
};
use crate::nes_file::NESFile;
use crate::ram::RamImpl;
use crate::EmuError;

verus! {

/// Video-memory mirroring topology, fixed per cartridge.
#[derive(Clone, Copy, Debug, PartialEq, Eq, Structural)]
pub enum Mirroring {
    Horizontal,
    Vertical,
    SingleScreen,
    FourScreen,
}

/// Mathematical state of a cartridge.
#[verifier::ext_equal]
pub ghost struct CartV {
    pub mapper: MapperV,
    pub mirroring: Mirroring,
}

pub open spec fn cart_wf(c: CartV) -> bool {
    mapper_wf(c.mapper)
}

/// A cartridge: the mapper-translated storage and the mirroring mode.
pub struct CartridgeImpl {
    pub mapper: Mapper,
    pub mirroring: Mirroring,
}

impl View for CartridgeImpl {
    type V = CartV;

    open spec fn view(&self) -> CartV {
        CartV { mapper: self.mapper@, mirroring: self.mirroring }
    }
}

impl CartridgeImpl {
    /// Builds the cartridge a validated file describes: storage handed to
    /// the mapper its header selects, save RAM allocated zero-filled when
    /// the header declares a battery, mirroring copied from the header.
    pub fn new(nes: NESFile) -> (r: Result<CartridgeImpl, EmuError>)
        requires
            nes.wf(),
        ensures
            match r {
                Ok(c) => {
                    &&& (nes.header.mapper_id == 0 || nes.header.mapper_id == 2)
                    &&& cart_wf(c@)
                    &&& c@.mirroring == nes.header.mirroring
                    &&& c@.mapper == spec_built_mapper(
                        nes.header.mapper_id,
                        nes.header.prg_banks,
                        nes.bytes@.subrange(
                            crate::nes_file::spec_chr_start(nes.bytes@),
                            crate::nes_file::spec_chr_start(nes.bytes@) + nes.header.chr_banks
                                * 0x2000,
                        ),
                        nes.bytes@.subrange(
                            crate::nes_file::spec_prg_start(nes.bytes@),
                            crate::nes_file::spec_prg_start(nes.bytes@) + nes.header.prg_banks
                                * 0x4000,
                        ),
                        if nes.header.has_battery_backed {
                            Some(Seq::new(0x2000nat, |i: int| 0u8))
                        } else {
                            None
                        },
                    )
                },
                Err(e) => nes.header.mapper_id != 0 && nes.header.mapper_id != 2 && e
                    == (EmuError::UnsupportedMapper { id: nes.header.mapper_id }),
            },
    {
        let mapper_id = nes.header().mapper_id;
        let prg_banks = nes.header().prg_banks;
        let has_battery_backed = nes.header().has_battery_backed;
        let mirroring = nes.header().mirroring;
        let chr_rom = nes.chr_rom();
        let prg_rom = nes.prg_rom();
        let sram: Option<RamImpl> = if has_battery_backed {
            Some(RamImpl::new(0x2000))
        } else {
            None
        };
        let mapper = get_mapper_by_id(mapper_id, prg_banks, chr_rom, prg_rom, sram)?;
        Ok(CartridgeImpl { mapper, mirroring })
    }

    /// A processor-space read, translated by the mapper.
    pub fn cpu_read(&self, addr: u16) -> (r: Result<u8, EmuError>)
        requires
            cart_wf(self@),
        ensures
            r == spec_mapper_read(self@.mapper, addr),
    {
        self.mapper.cpu_read(addr)
    }

    /// A processor-space write, translated by the mapper.
    pub fn cpu_write(&mut self, addr: u16, value: u8) -> (r: Result<(), EmuError>)
        requires
            cart_wf(old(self)@),
        ensures
            (final(self)@.mapper, r) == spec_mapper_write(old(self)@.mapper, addr, value),
            final(self)@.mirroring == old(self)@.mirroring,
    {
        self.mapper.cpu_write(addr, value)
    }

    /// A video-space read, translated by the mapper.
    pub fn ppu_read(&self, addr: u16) -> (r: Result<u8, EmuError>)
        requires
            cart_wf(self@),
        ensures
            r == spec_mapper_ppu_read(self@.mapper, addr),
    {
        self.mapper.ppu_read(addr)
    }

    /// A video-space write, translated by the mapper.
    pub fn ppu_write(&mut self, addr: u16, value: u8) -> (r: Result<(), EmuError>)
        requires
            cart_wf(old(self)@),
        ensures
            (final(self)@.mapper, r) == spec_mapper_ppu_write(old(self)@.mapper, addr, value),
            final(self)@.mirroring == old(self)@.mirroring,
    {
        self.mapper.ppu_write(addr, value)
    }

    /// The mirroring topology the header fixed.
    pub fn mirroring(&self) -> (r: Mirroring)
        ensures
            r == self@.mirroring,
    {
        self.mirroring
    }
}

} // verus!
