//! The cartridge file format: a fixed 16-byte header (magic, program-bank
//! count, character-bank count, two flag bytes whose high nibbles form the
//! mapper ID), an optional 512-byte trainer block, then 16KB program banks
//! and 8KB character banks.  A malformed header is rejected before any
//! emulation begins.

use vstd::prelude::*;

use crate::cartridge::Mirroring;
use crate::EmuError;

verus! {

pub const PRG_BANK_SIZE: usize = 0x4000;

pub const CHR_BANK_SIZE: usize = 0x2000;

pub const TRAINER_SIZE: usize = 0x0200;

/// The parsed 16-byte header.
#[derive(Clone, Copy, Debug)]
pub struct NESHeader {
    /// The four fixed magic bytes.
    pub magic: [u8; 4],
    /// Number of 16KB program banks.
    pub prg_banks: u8,
    /// Number of 8KB character banks.
    pub chr_banks: u8,
    /// Video-memory mirroring topology.
    pub mirroring: Mirroring,
    /// Whether battery-backed save RAM is present.
    pub has_battery_backed: bool,
    /// Whether a 512-byte trainer block precedes the program banks.
    pub has_trainer: bool,
    /// Mapper variant selected by the two flag bytes' high nibbles.
    pub mapper_id: u8,
}

/// Mirroring encoded in the first flags byte: bit 3 selects four-screen,
/// else bit 0 selects vertical over horizontal.
pub open spec fn spec_header_mirroring(b6: u8) -> Mirroring {
    if b6 >> 3 & 1 != 0 {
        Mirroring::FourScreen
    } else if b6 >> 0 & 1 != 0 {
        Mirroring::Vertical
    } else {
        Mirroring::Horizontal
    }
}

/// The mapper ID formed from the two flag bytes' high nibbles.
pub open spec fn spec_mapper_id(b6: u8, b7: u8) -> u8 {
    ((b7 >> 4) | (b6 & 0xF0)) as u8
}

pub open spec fn spec_has_trainer(bytes: Seq<u8>) -> bool {
    bytes[6] >> 2 & 1 != 0
}

/// Offset of the first program bank: past the header and the trainer block
/// when one is present.
pub open spec fn spec_prg_start(bytes: Seq<u8>) -> int {
    0x10 + if spec_has_trainer(bytes) {
        0x200int
    } else {
        0int
    }
}

pub open spec fn spec_chr_start(bytes: Seq<u8>) -> int {
    spec_prg_start(bytes) + bytes[4] * 0x4000
}

pub open spec fn spec_data_end(bytes: Seq<u8>) -> int {
    spec_chr_start(bytes) + bytes[5] * 0x2000
}

/// Header validation, with the error precedence the loader uses: truncation,
/// bad magic, zero program banks, zero character banks, then a byte count
/// shorter than the header declares.
pub open spec fn spec_file_check(bytes: Seq<u8>) -> Result<(), EmuError> {
    if bytes.len() < 16 {
        Err(EmuError::HeaderTruncated)
    } else if !(bytes[0] == 0x4E && bytes[1] == 0x45 && bytes[2] == 0x53 && bytes[3] == 0x1A) {
        Err(EmuError::HeaderBadMagic)
    } else if bytes[4] == 0 {
        Err(EmuError::HeaderNoPrgBanks)
    } else if bytes[5] == 0 {
        Err(EmuError::HeaderNoChrBanks)
    } else if bytes.len() < spec_data_end(bytes) {
        Err(EmuError::HeaderTruncated)
    } else {
        Ok(())
    }
}

/// A validated cartridge image.
pub struct NESFile {
    pub bytes: Vec<u8>,
    pub header: NESHeader,
}

impl NESFile {
    /// The header matches the bytes and the bytes hold every declared bank.
    pub open spec fn wf(self) -> bool {
        &&& spec_file_check(self.bytes@) is Ok
        &&& self.header.magic@ =~= self.bytes@.subrange(0, 4)
        &&& self.header.prg_banks == self.bytes@[4]
        &&& self.header.chr_banks == self.bytes@[5]
        &&& self.header.mirroring == spec_header_mirroring(self.bytes@[6])
        &&& self.header.has_battery_backed == (self.bytes@[6] >> 1 & 1 != 0)
        &&& self.header.has_trainer == spec_has_trainer(self.bytes@)
        &&& self.header.mapper_id == spec_mapper_id(self.bytes@[6], self.bytes@[7])
    }

    /// Validates a cartridge image.  Returns the loaded file exactly when
    /// the check passes, and the first failing check's error otherwise.
    pub fn new(bytes: Vec<u8>) -> (r: Result<NESFile, EmuError>)
        ensures
            match r {
                Ok(f) => spec_file_check(bytes@) is Ok && f.bytes@ == bytes@ && f.wf(),
                Err(e) => spec_file_check(bytes@) == Err::<(), EmuError>(e),
            },
    {
        if bytes.len() < 16 {
            return Err(EmuError::HeaderTruncated);
        }
        if !(bytes[0] == 0x4E && bytes[1] == 0x45 && bytes[2] == 0x53 && bytes[3] == 0x1A) {
            return Err(EmuError::HeaderBadMagic);
        }
        let prg_banks = bytes[4];
        let chr_banks = bytes[5];
        if prg_banks == 0 {
            return Err(EmuError::HeaderNoPrgBanks);
        }
        if chr_banks == 0 {
            return Err(EmuError::HeaderNoChrBanks);
        }
        let b6 = bytes[6];
        let b7 = bytes[7];
        let has_trainer = b6 >> 2 & 1 != 0;
        let prg_start: usize = 0x10 + if has_trainer {
            0x200usize
        } else {
            0usize
        };
        let data_end: usize = prg_start + (prg_banks as usize) * 0x4000 + (chr_banks as usize)
            * 0x2000;
        if bytes.len() < data_end {
            return Err(EmuError::HeaderTruncated);
        }
        let mirroring = if b6 >> 3 & 1 != 0 {
            Mirroring::FourScreen
        } else if b6 >> 0 & 1 != 0 {
            Mirroring::Vertical
        } else {
            Mirroring::Horizontal
        };
        let header = NESHeader {
            magic: [bytes[0], bytes[1], bytes[2], bytes[3]],
            prg_banks,
            chr_banks,
            mirroring,
            has_battery_backed: b6 >> 1 & 1 != 0,
            has_trainer,
            mapper_id: (b7 >> 4) | (b6 & 0xF0),
        };
        Ok(NESFile { bytes, header })
    }

    /// The parsed header.
    pub fn header(&self) -> (r: &NESHeader)
        ensures
            *r == self.header,
    {
        &self.header
    }

    /// The program banks, concatenated.
    pub fn prg_rom(&self) -> (r: Vec<u8>)
        requires
            self.wf(),
        ensures
            r@ == self.bytes@.subrange(
                spec_prg_start(self.bytes@),
                spec_prg_start(self.bytes@) + self.header.prg_banks * 0x4000,
            ),
            r@.len() == self.header.prg_banks * 0x4000,
    {
        let start = self.prg_rom_start();
        copy_range(&self.bytes, start, (self.header.prg_banks as usize) * PRG_BANK_SIZE)
    }

    /// The character banks, concatenated.
    pub fn chr_rom(&self) -> (r: Vec<u8>)
        requires
            self.wf(),
        ensures
            r@ == self.bytes@.subrange(
                spec_chr_start(self.bytes@),
                spec_chr_start(self.bytes@) + self.header.chr_banks * 0x2000,
            ),
            r@.len() == self.header.chr_banks * 0x2000,
    {
        let start = self.chr_rom_start();
        copy_range(&self.bytes, start, (self.header.chr_banks as usize) * CHR_BANK_SIZE)
    }

    /// The 512-byte trainer block, when the header declares one.
    pub fn trainer_rom(&self) -> (r: Result<Vec<u8>, EmuError>)
        requires
            self.wf(),
        ensures
            match r {
                Ok(v) => self.header.has_trainer && v@ == self.bytes@.subrange(0x10, 0x210),
                Err(e) => !self.header.has_trainer && e == EmuError::TrainerAbsent,
            },
    {
        if !self.header.has_trainer {
            return Err(EmuError::TrainerAbsent);
        }
        Ok(copy_range(&self.bytes, 0x10, TRAINER_SIZE))
    }

    /// Offset of the first program bank.
    pub fn prg_rom_start(&self) -> (r: usize)
        requires
            self.wf(),
        ensures
            r == spec_prg_start(self.bytes@),
    {
        0x10 + if self.header.has_trainer {
            TRAINER_SIZE
        } else {
            0usize
        }
    }

    /// Offset of the first character bank.
    pub fn chr_rom_start(&self) -> (r: usize)
        requires
            self.wf(),
        ensures
            r == spec_chr_start(self.bytes@),
    {
        self.prg_rom_start() + (self.header.prg_banks as usize) * PRG_BANK_SIZE
    }
}

/// A copy of `v[start..start + len]`.
fn copy_range(v: &Vec<u8>, start: usize, len: usize) -> (r: Vec<u8>)
    requires
        start + len <= v@.len(),
    ensures
        r@ == v@.subrange(start as int, start + len),
{
    let n = v.len();
    let mut r: Vec<u8> = Vec::new();
    let mut i: usize = 0;
    while i < len
        invariant
            i <= len,
            start + len <= n,
            n == v@.len(),
            r@ == v@.subrange(start as int, start + i),
        decreases len - i,
    {
        r.push(v[start + i]);
        i = i + 1;
        proof {
            assert(r@ =~= v@.subrange(start as int, start + i));
        }
    }
    r
}

} // verus!
