//! The cartridge mappers: translation of processor- and video-space
//! addresses into bank-relative offsets of the program and character
//! storage.  Two variants are provided: fixed mapping, and a bank-switched
//! variant whose low window is selected by the most recent write at or above
//! `0x8000` while the high window is pinned to the last bank.

use vstd::prelude::*;

use crate::ram::{spec_ram_read, spec_ram_write, RamImpl};
use crate::EmuError;

verus! {

/// Mathematical state of the fixed mapper.
#[verifier::ext_equal]
pub ghost struct Mapper0V {
    pub prg_banks: u8,
    pub chr: Seq<u8>,
    pub prg: Seq<u8>,
    pub sram: Option<Seq<u8>>,
}

/// Mathematical state of the bank-switched mapper.
#[verifier::ext_equal]
pub ghost struct Mapper2V {
    pub prg_banks: u8,
    /// Bank shown in the switchable `0x8000..0xC000` window.
    pub prg_bank1: u8,
    /// Bank shown in the fixed `0xC000..` window: always the last bank.
    pub prg_bank2: u8,
    pub chr: Seq<u8>,
    pub prg: Seq<u8>,
    pub sram: Option<Seq<u8>>,
}

#[verifier::ext_equal]
pub ghost enum MapperV {
    M0(Mapper0V),
    M2(Mapper2V),
}

/// Storage sizes agree with the bank counts and the save RAM window.
pub open spec fn mapper0_wf(m: Mapper0V) -> bool {
    &&& m.prg_banks >= 1
    &&& m.prg.len() == m.prg_banks * 0x4000
    &&& m.chr.len() >= 0x2000
    &&& match m.sram {
        Some(s) => s.len() == 0x2000,
        None => true,
    }
}

pub open spec fn mapper2_wf(m: Mapper2V) -> bool {
    &&& m.prg_banks >= 1
    &&& m.prg_bank1 < m.prg_banks
    &&& m.prg_bank2 == m.prg_banks - 1
    &&& m.prg.len() == m.prg_banks * 0x4000
    &&& m.chr.len() >= 0x2000
    &&& match m.sram {
        Some(s) => s.len() == 0x2000,
        None => true,
    }
}

pub open spec fn mapper_wf(m: MapperV) -> bool {
    match m {
        MapperV::M0(m0) => mapper0_wf(m0),
        MapperV::M2(m2) => mapper2_wf(m2),
    }
}

/// Fixed mapping: character storage below `0x2000`, save RAM at
/// `0x6000..0x8000`, the first program bank at `0x8000..0xC000`, and the
/// second window at `0xC000..` mirroring the first when only one bank
/// exists.  Anything else is out of contract.
pub open spec fn spec_mapper0_read(m: Mapper0V, addr: u16) -> Result<u8, EmuError> {
    if addr < 0x2000 {
        Ok(m.chr[addr as int])
    } else if 0x6000 <= addr < 0x8000 {
        match m.sram {
            Some(s) => spec_ram_read(s, (addr - 0x6000) as u16),
            None => Err(EmuError::SramAbsent),
        }
    } else if 0x8000 <= addr < 0xC000 {
        Ok(m.prg[addr - 0x8000])
    } else if addr >= 0xC000 {
        if m.prg_banks == 1 {
            Ok(m.prg[addr - 0xC000])
        } else {
            Ok(m.prg[addr - 0x8000])
        }
    } else {
        Err(EmuError::MapperAddressOutOfRange { addr })
    }
}

/// Fixed mapping writes: character storage is read-only; save RAM and the
/// program windows are writable.
pub open spec fn spec_mapper0_write(m: Mapper0V, addr: u16, value: u8) -> (Mapper0V, Result<
    (),
    EmuError,
>) {
    if addr < 0x2000 {
        (m, Err(EmuError::ChrWriteDenied { addr }))
    } else if 0x6000 <= addr < 0x8000 {
        match m.sram {
            Some(s) => {
                let (s2, r) = spec_ram_write(s, (addr - 0x6000) as u16, value);
                (Mapper0V { sram: Some(s2), ..m }, r)
            },
            None => (m, Err(EmuError::SramAbsent)),
        }
    } else if 0x8000 <= addr < 0xC000 {
        (Mapper0V { prg: m.prg.update(addr - 0x8000, value), ..m }, Ok(()))
    } else if addr >= 0xC000 {
        if m.prg_banks == 1 {
            (Mapper0V { prg: m.prg.update(addr - 0xC000, value), ..m }, Ok(()))
        } else {
            (Mapper0V { prg: m.prg.update(addr - 0x8000, value), ..m }, Ok(()))
        }
    } else {
        (m, Err(EmuError::MapperAddressOutOfRange { addr }))
    }
}

/// Bank-switched mapping: the low window shows the selected bank, the high
/// window always the last bank.
pub open spec fn spec_mapper2_read(m: Mapper2V, addr: u16) -> Result<u8, EmuError> {
    if addr < 0x2000 {
        Ok(m.chr[addr as int])
    } else if 0x6000 <= addr < 0x8000 {
        match m.sram {
            Some(s) => spec_ram_read(s, (addr - 0x6000) as u16),
            None => Err(EmuError::SramAbsent),
        }
    } else if 0x8000 <= addr < 0xC000 {
        Ok(m.prg[m.prg_bank1 * 0x4000 + (addr - 0x8000)])
    } else if addr >= 0xC000 {
        Ok(m.prg[m.prg_bank2 * 0x4000 + (addr - 0xC000)])
    } else {
        Err(EmuError::MapperAddressOutOfRange { addr })
    }
}

/// Bank-switched writes: any write at or above `0x8000` selects the low
/// window's bank, modulo the bank count.
pub open spec fn spec_mapper2_write(m: Mapper2V, addr: u16, value: u8) -> (Mapper2V, Result<
    (),
    EmuError,
>) {
    if addr < 0x2000 {
        (m, Err(EmuError::ChrWriteDenied { addr }))
    } else if 0x6000 <= addr < 0x8000 {
        match m.sram {
            Some(s) => {
                let (s2, r) = spec_ram_write(s, (addr - 0x6000) as u16, value);
                (Mapper2V { sram: Some(s2), ..m }, r)
            },
            None => (m, Err(EmuError::SramAbsent)),
        }
    } else if addr >= 0x8000 {
        (Mapper2V { prg_bank1: (value % m.prg_banks) as u8, ..m }, Ok(()))
    } else {
        (m, Err(EmuError::MapperAddressOutOfRange { addr }))
    }
}

/// Video-space access of the bank-switched mapper: character storage only.
pub open spec fn spec_mapper2_ppu_read(m: Mapper2V, addr: u16) -> Result<u8, EmuError> {
    if addr < 0x2000 {
        Ok(m.chr[addr as int])
    } else {
        Err(EmuError::MapperAddressOutOfRange { addr })
    }
}

pub open spec fn spec_mapper_read(m: MapperV, addr: u16) -> Result<u8, EmuError> {
    match m {
        MapperV::M0(m0) => spec_mapper0_read(m0, addr),
        MapperV::M2(m2) => spec_mapper2_read(m2, addr),
    }
}

pub open spec fn spec_mapper_write(m: MapperV, addr: u16, value: u8) -> (MapperV, Result<
    (),
    EmuError,
>) {
    match m {
        MapperV::M0(m0) => {
            let (m0b, r) = spec_mapper0_write(m0, addr, value);
            (MapperV::M0(m0b), r)
        },
        MapperV::M2(m2) => {
            let (m2b, r) = spec_mapper2_write(m2, addr, value);
            (MapperV::M2(m2b), r)
        },
    }
}

pub open spec fn spec_mapper_ppu_read(m: MapperV, addr: u16) -> Result<u8, EmuError> {
    match m {
        MapperV::M0(m0) => spec_mapper0_read(m0, addr),
        MapperV::M2(m2) => spec_mapper2_ppu_read(m2, addr),
    }
}

pub open spec fn spec_mapper_ppu_write(m: MapperV, addr: u16, value: u8) -> (MapperV, Result<
    (),
    EmuError,
>) {
    match m {
        MapperV::M0(m0) => {
            let (m0b, r) = spec_mapper0_write(m0, addr, value);
            (MapperV::M0(m0b), r)
        },
        MapperV::M2(m2) => {
            if addr < 0x2000 {
                (m, Err(EmuError::ChrWriteDenied { addr }))
            } else {
                (m, Err(EmuError::MapperAddressOutOfRange { addr }))
            }
        },
    }
}

/// The fixed mapper.
pub struct Mapper0 {
    pub prg_banks: u8,
    pub chr_rom: Vec<u8>,
    pub prg_rom: Vec<u8>,
    pub sram: Option<RamImpl>,
}

impl View for Mapper0 {
    type V = Mapper0V;

    open spec fn view(&self) -> Mapper0V {
        Mapper0V {
            prg_banks: self.prg_banks,
            chr: self.chr_rom@,
            prg: self.prg_rom@,
            sram: match self.sram {
                Some(ref s) => Some(s@),
                None => None,
            },
        }
    }
}

impl Mapper0 {
    pub fn new(prg_banks: u8, chr_rom: Vec<u8>, prg_rom: Vec<u8>, sram: Option<RamImpl>) -> (r:
        Mapper0)
        ensures
            r@ == (Mapper0V {
                prg_banks,
                chr: chr_rom@,
                prg: prg_rom@,
                sram: match sram {
                    Some(s) => Some(s@),
                    None => None,
                },
            }),
    {
        Mapper0 { prg_banks, chr_rom, prg_rom, sram }
    }

    pub fn read(&self, addr: u16) -> (r: Result<u8, EmuError>)
        requires
            mapper0_wf(self@),
        ensures
            r == spec_mapper0_read(self@, addr),
    {
        if addr < 0x2000 {
            Ok(self.chr_rom[addr as usize])
        } else if 0x6000 <= addr && addr < 0x8000 {
            match self.sram {
                Some(ref s) => s.read(addr - 0x6000),
                None => Err(EmuError::SramAbsent),
            }
        } else if 0x8000 <= addr && addr < 0xC000 {
            Ok(self.prg_rom[addr as usize - 0x8000])
        } else if addr >= 0xC000 {
            if self.prg_banks == 1 {
                Ok(self.prg_rom[addr as usize - 0xC000])
            } else {
                Ok(self.prg_rom[addr as usize - 0x8000])
            }
        } else {
            Err(EmuError::MapperAddressOutOfRange { addr })
        }
    }

    pub fn write(&mut self, addr: u16, value: u8) -> (r: Result<(), EmuError>)
        requires
            mapper0_wf(old(self)@),
        ensures
            (final(self)@, r) == spec_mapper0_write(old(self)@, addr, value),
    {
        if addr < 0x2000 {
            Err(EmuError::ChrWriteDenied { addr })
        } else if 0x6000 <= addr && addr < 0x8000 {
            match self.sram {
                Some(ref mut s) => s.write(addr - 0x6000, value),
                None => Err(EmuError::SramAbsent),
            }
        } else if 0x8000 <= addr && addr < 0xC000 {
            self.prg_rom.set(addr as usize - 0x8000, value);
            Ok(())
        } else if addr >= 0xC000 {
            if self.prg_banks == 1 {
                self.prg_rom.set(addr as usize - 0xC000, value);
            } else {
                self.prg_rom.set(addr as usize - 0x8000, value);
            }
            Ok(())
        } else {
            Err(EmuError::MapperAddressOutOfRange { addr })
        }
    }
}

/// The bank-switched mapper.
pub struct Mapper2 {
    pub prg_banks: u8,
    pub prg_bank1: u8,
    pub prg_bank2: u8,
    pub chr_rom: Vec<u8>,
    pub prg_rom: Vec<u8>,
    pub sram: Option<RamImpl>,
}

impl View for Mapper2 {
    type V = Mapper2V;

    open spec fn view(&self) -> Mapper2V {
        Mapper2V {
            prg_banks: self.prg_banks,
            prg_bank1: self.prg_bank1,
            prg_bank2: self.prg_bank2,
            chr: self.chr_rom@,
            prg: self.prg_rom@,
            sram: match self.sram {
                Some(ref s) => Some(s@),
                None => None,
            },
        }
    }
}

impl Mapper2 {
    /// Starts with bank 0 selected and the fixed window on the last bank.
    pub fn new(prg_banks: u8, chr_rom: Vec<u8>, prg_rom: Vec<u8>, sram: Option<RamImpl>) -> (r:
        Mapper2)
        requires
            prg_banks >= 1,
        ensures
            r@ == (Mapper2V {
                prg_banks,
                prg_bank1: 0,
                prg_bank2: (prg_banks - 1) as u8,
                chr: chr_rom@,
                prg: prg_rom@,
                sram: match sram {
                    Some(s) => Some(s@),
                    None => None,
                },
            }),
    {
        Mapper2 {
            prg_banks,
            prg_bank1: 0,
            prg_bank2: prg_banks - 1,
            chr_rom,
            prg_rom,
            sram,
        }
    }

    pub fn read(&self, addr: u16) -> (r: Result<u8, EmuError>)
        requires
            mapper2_wf(self@),
        ensures
            r == spec_mapper2_read(self@, addr),
    {
        if addr < 0x2000 {
            Ok(self.chr_rom[addr as usize])
        } else if 0x6000 <= addr && addr < 0x8000 {
            match self.sram {
                Some(ref s) => s.read(addr - 0x6000),
                None => Err(EmuError::SramAbsent),
            }
        } else if 0x8000 <= addr && addr < 0xC000 {
            proof {
                assert(self@.prg_bank1 * 0x4000 + 0x4000 <= self@.prg_banks * 0x4000);
            }
            Ok(self.prg_rom[self.prg_bank1 as usize * 0x4000 + (addr as usize - 0x8000)])
        } else if addr >= 0xC000 {
            proof {
                assert(self@.prg_bank2 * 0x4000 + 0x4000 <= self@.prg_banks * 0x4000);
            }
            Ok(self.prg_rom[self.prg_bank2 as usize * 0x4000 + (addr as usize - 0xC000)])
        } else {
            Err(EmuError::MapperAddressOutOfRange { addr })
        }
    }

    pub fn write(&mut self, addr: u16, value: u8) -> (r: Result<(), EmuError>)
        requires
            mapper2_wf(old(self)@),
        ensures
            (final(self)@, r) == spec_mapper2_write(old(self)@, addr, value),
    {
        if addr < 0x2000 {
            Err(EmuError::ChrWriteDenied { addr })
        } else if 0x6000 <= addr && addr < 0x8000 {
            match self.sram {
                Some(ref mut s) => s.write(addr - 0x6000, value),
                None => Err(EmuError::SramAbsent),
            }
        } else if addr >= 0x8000 {
            self.prg_bank1 = value % self.prg_banks;
            Ok(())
        } else {
            Err(EmuError::MapperAddressOutOfRange { addr })
        }
    }

    pub fn ppu_read(&self, addr: u16) -> (r: Result<u8, EmuError>)
        requires
            mapper2_wf(self@),
        ensures
            r == spec_mapper2_ppu_read(self@, addr),
    {
        if addr < 0x2000 {
            Ok(self.chr_rom[addr as usize])
        } else {
            Err(EmuError::MapperAddressOutOfRange { addr })
        }
    }
}

/// A mapper variant, selected by the numeric ID from the cartridge header.
pub enum Mapper {
    M0(Mapper0),
    M2(Mapper2),
}

impl View for Mapper {
    type V = MapperV;

    open spec fn view(&self) -> MapperV {
        match self {
            Mapper::M0(m) => MapperV::M0(m@),
            Mapper::M2(m) => MapperV::M2(m@),
        }
    }
}

impl Mapper {
    pub fn cpu_read(&self, addr: u16) -> (r: Result<u8, EmuError>)
        requires
            mapper_wf(self@),
        ensures
            r == spec_mapper_read(self@, addr),
    {
        match self {
            Mapper::M0(m) => m.read(addr),
            Mapper::M2(m) => m.read(addr),
        }
    }

    pub fn cpu_write(&mut self, addr: u16, value: u8) -> (r: Result<(), EmuError>)
        requires
            mapper_wf(old(self)@),
        ensures
            (final(self)@, r) == spec_mapper_write(old(self)@, addr, value),
    {
        match self {
            Mapper::M0(m) => m.write(addr, value),
            Mapper::M2(m) => m.write(addr, value),
        }
    }

    pub fn ppu_read(&self, addr: u16) -> (r: Result<u8, EmuError>)
        requires
            mapper_wf(self@),
        ensures
            r == spec_mapper_ppu_read(self@, addr),
    {
        match self {
            Mapper::M0(m) => m.read(addr),
            Mapper::M2(m) => m.ppu_read(addr),
        }
    }

    pub fn ppu_write(&mut self, addr: u16, value: u8) -> (r: Result<(), EmuError>)
        requires
            mapper_wf(old(self)@),
        ensures
            (final(self)@, r) == spec_mapper_ppu_write(old(self)@, addr, value),
    {
        match self {
            Mapper::M0(m) => m.write(addr, value),
            Mapper::M2(_) => {
                if addr < 0x2000 {
                    Err(EmuError::ChrWriteDenied { addr })
                } else {
                    Err(EmuError::MapperAddressOutOfRange { addr })
                }
            },
        }
    }
}

/// Builds the mapper a header's numeric ID selects; an ID this core does not
/// provide is a load-time configuration error.
pub fn get_mapper_by_id(
    mapper_id: u8,
    prg_banks: u8,
    chr_rom: Vec<u8>,
    prg_rom: Vec<u8>,
    sram: Option<RamImpl>,
) -> (r: Result<Mapper, EmuError>)
    requires
        prg_banks >= 1,
    ensures
        match r {
            Ok(m) => (mapper_id == 0 || mapper_id == 2) && m@ == spec_built_mapper(
                mapper_id,
                prg_banks,
                chr_rom@,
                prg_rom@,
                match sram {
                    Some(s) => Some(s@),
                    None => None,
                },
            ),
            Err(e) => mapper_id != 0 && mapper_id != 2 && e == (EmuError::UnsupportedMapper {
                id: mapper_id,
            }),
        },
{
    match mapper_id {
        0 => Ok(Mapper::M0(Mapper0::new(prg_banks, chr_rom, prg_rom, sram))),
        2 => Ok(Mapper::M2(Mapper2::new(prg_banks, chr_rom, prg_rom, sram))),
        _ => Err(EmuError::UnsupportedMapper { id: mapper_id }),
    }
}

/// The initial mapper state for a supported ID.
pub open spec fn spec_built_mapper(
    mapper_id: u8,
    prg_banks: u8,
    chr: Seq<u8>,
    prg: Seq<u8>,
    sram: Option<Seq<u8>>,
) -> MapperV {
    if mapper_id == 0 {
        MapperV::M0(Mapper0V { prg_banks, chr, prg, sram })
    } else {
        MapperV::M2(
            Mapper2V {
                prg_banks,
                prg_bank1: 0,
                prg_bank2: (prg_banks - 1) as u8,
                chr,
                prg,
                sram,
            },
        )
    }
}

} // verus!
