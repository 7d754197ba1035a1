//! The shared memory bus: an ordered collection of address-claiming
//! devices.  Dispatch is linear and first-match-wins over registration
//! order, so the order devices are registered in is part of the contract.
//! An address no device claims is a fault, never an open-bus value.

use vstd::prelude::*;

use crate::cartridge::Mirroring;
use crate::cpu::w_sub16;
use crate::ram::{spec_ram_read, spec_ram_write, RamImpl};
use crate::EmuError;

verus! {

/// Work RAM as the processor bus sees it: claims the low `0x2000` addresses
/// and folds them onto the backing storage every `0x800` bytes.
pub struct RAMAdapterForCPUBus {
    pub ram: RamImpl,
}

/// Nametable RAM as the video bus sees it: claims `0x2000..0x3F00` and
/// folds the four logical tables onto the backing storage according to the
/// cartridge's mirroring topology.
pub struct NameTablesAdapterForPpuBus {
    pub vram: RamImpl,
    pub mirroring: Mirroring,
}

/// Palette RAM as the video bus sees it: claims `0x3F00..0x4000`, mirrored
/// every 32 bytes.
pub struct PalettesTablesAdapterForPpuBus {
    pub vram: RamImpl,
}

/// One device slot of a bus.  Devices with their own storage carry it;
/// devices that reach other parts of the machine (the video unit's register
/// ports, the cartridge, the DMA trigger, the whole-bus mirror) are markers
/// the owning board dispatches on.
pub enum BusDevice {
    /// Mirrored work RAM, low `0x2000` addresses.
    Ram(RAMAdapterForCPUBus),
    /// The video unit's register ports, `0x2000..0x4000` mirrored every 8.
    Ppu,
    /// The audio unit's registers, `0x4000..0x4014` and `0x4015`.
    Apu,
    /// The DMA trigger port, `0x4014`.
    Dma,
    /// The input-device registers, `0x4016..0x4018`.
    Joypad,
    /// Cartridge space, `0x4020` and above.
    Cartridge,
    /// Cartridge character data on the video bus, below `0x2000`.
    PatternTables,
    /// Nametable RAM with mirroring, `0x2000..0x3F00`.
    NameTables(NameTablesAdapterForPpuBus),
    /// Palette RAM, `0x3F00..0x4000`.
    Palettes(PalettesTablesAdapterForPpuBus),
    /// The whole video space mirrored above `0x4000`.
    MirrorBus,
}

/// Mathematical state of one device slot.
#[verifier::ext_equal]
pub ghost enum DeviceV {
    Ram(Seq<u8>),
    Ppu,
    Apu,
    Dma,
    Joypad,
    Cartridge,
    PatternTables,
    NameTables { vram: Seq<u8>, mirroring: Mirroring },
    Palettes(Seq<u8>),
    MirrorBus,
}

impl View for BusDevice {
    type V = DeviceV;

    open spec fn view(&self) -> DeviceV {
        match self {
            BusDevice::Ram(a) => DeviceV::Ram(a.ram@),
            BusDevice::Ppu => DeviceV::Ppu,
            BusDevice::Apu => DeviceV::Apu,
            BusDevice::Dma => DeviceV::Dma,
            BusDevice::Joypad => DeviceV::Joypad,
            BusDevice::Cartridge => DeviceV::Cartridge,
            BusDevice::PatternTables => DeviceV::PatternTables,
            BusDevice::NameTables(a) => DeviceV::NameTables {
                vram: a.vram@,
                mirroring: a.mirroring,
            },
            BusDevice::Palettes(a) => DeviceV::Palettes(a.vram@),
            BusDevice::MirrorBus => DeviceV::MirrorBus,
        }
    }
}

/// Whether a device claims an address.  Each device kind claims a fixed
/// window.
pub open spec fn spec_device_claims(d: DeviceV, addr: u16) -> bool {
    match d {
        DeviceV::Ram(_) => addr < 0x2000,
        DeviceV::Ppu => 0x2000 <= addr < 0x4000,
        DeviceV::Apu => (0x4000 <= addr < 0x4014) || addr == 0x4015,
        DeviceV::Dma => addr == 0x4014,
        DeviceV::Joypad => addr == 0x4016 || addr == 0x4017,
        DeviceV::Cartridge => addr >= 0x4020,
        DeviceV::PatternTables => addr < 0x2000,
        DeviceV::NameTables { .. } => 0x2000 <= addr < 0x3F00,
        DeviceV::Palettes(_) => 0x3F00 <= addr < 0x4000,
        DeviceV::MirrorBus => addr >= 0x4000,
    }
}

/// The index of the first registered device claiming `addr`, if any.
pub open spec fn spec_find_claim(devs: Seq<DeviceV>, addr: u16) -> Option<int>
    decreases devs.len(),
{
    if devs.len() == 0 {
        None
    } else if spec_device_claims(devs[0], addr) {
        Some(0)
    } else {
        match spec_find_claim(devs.drop_first(), addr) {
            Some(i) => Some(i + 1),
            None => None,
        }
    }
}

/// `spec_find_claim` picks exactly the first claimant: the index of a
/// claiming device before which no device claims.
pub proof fn lemma_find_claim_characterization(devs: Seq<DeviceV>, addr: u16, i: int)
    requires
        0 <= i < devs.len(),
        spec_device_claims(devs[i], addr),
        forall|j: int| 0 <= j < i ==> !spec_device_claims(devs[j], addr),
    ensures
        spec_find_claim(devs, addr) == Some(i),
    decreases devs.len(),
{
    if i == 0 {
    } else {
        lemma_find_claim_characterization(devs.drop_first(), addr, i - 1);
    }
}

/// When no device claims, no index is found.
pub proof fn lemma_find_claim_none(devs: Seq<DeviceV>, addr: u16)
    requires
        forall|j: int| 0 <= j < devs.len() ==> !spec_device_claims(devs[j], addr),
    ensures
        spec_find_claim(devs, addr) is None,
    decreases devs.len(),
{
    if devs.len() > 0 {
        lemma_find_claim_none(devs.drop_first(), addr);
    }
}

/// The found index claims the address, and nothing before it does.
pub proof fn lemma_find_claim_found(devs: Seq<DeviceV>, addr: u16)
    requires
        spec_find_claim(devs, addr) is Some,
    ensures
        ({
            let i = spec_find_claim(devs, addr)->Some_0;
            &&& 0 <= i < devs.len()
            &&& spec_device_claims(devs[i], addr)
            &&& forall|j: int| 0 <= j < i ==> !spec_device_claims(devs[j], addr)
        }),
    decreases devs.len(),
{
    if devs.len() > 0 && !spec_device_claims(devs[0], addr) {
        lemma_find_claim_found(devs.drop_first(), addr);
        let i = spec_find_claim(devs, addr)->Some_0;
        assert forall|j: int| 0 <= j < i implies !spec_device_claims(devs[j], addr) by {
            if j > 0 {
                assert(devs[j] == devs.drop_first()[j - 1]);
            }
        }
    }
}

/// The nametable fold: the four logical tables at `0x2000..0x3000` (and
/// their mirror up to `0x3F00`) land on backing storage according to the
/// mirroring topology.
pub open spec fn spec_mirror_address(mirroring: Mirroring, addr: u16) -> u16 {
    let base = w_sub16(addr, 0x2000) % 0x1000;
    let nametable_index = base / 0x400;
    let nametable_offset = base % 0x400;
    match mirroring {
        Mirroring::Horizontal => {
            let mapping_index: u16 = if nametable_index % 2 == 0 {
                0
            } else {
                1
            };
            (mapping_index * 0x400 + nametable_offset) as u16
        },
        Mirroring::Vertical => {
            let mapping_index: u16 = if nametable_index < 2 {
                0
            } else {
                1
            };
            (mapping_index * 0x400 + nametable_offset) as u16
        },
        Mirroring::SingleScreen => nametable_offset,
        Mirroring::FourScreen => base,
    }
}

impl NameTablesAdapterForPpuBus {
    /// Folds a nametable address onto the backing storage.
    pub fn mirror_address(&self, addr: u16) -> (r: u16)
        ensures
            r == spec_mirror_address(self.mirroring, addr),
            r < 0x1000,
    {
        let base = addr.wrapping_sub(0x2000) % 0x1000;
        let nametable_index = base / 0x400;
        let nametable_offset = base % 0x400;
        match self.mirroring {
            Mirroring::Horizontal => {
                let mapping_index: u16 = if nametable_index % 2 == 0 {
                    0
                } else {
                    1
                };
                mapping_index * 0x400 + nametable_offset
            },
            Mirroring::Vertical => {
                let mapping_index: u16 = if nametable_index < 2 {
                    0
                } else {
                    1
                };
                mapping_index * 0x400 + nametable_offset
            },
            Mirroring::SingleScreen => nametable_offset,
            Mirroring::FourScreen => base,
        }
    }
}

/// What a read of a self-contained device returns.  Marker devices are
/// resolved by the board; a read that lands on one here is out of contract.
pub open spec fn spec_local_read(d: DeviceV, addr: u16) -> Result<u8, EmuError> {
    match d {
        DeviceV::Ram(mem) => spec_ram_read(mem, (addr % 0x800) as u16),
        DeviceV::Apu => if addr == 0x4015 {
            Ok(0)
        } else {
            Err(EmuError::UnsupportedRead { addr })
        },
        DeviceV::Dma => Err(EmuError::UnsupportedRead { addr }),
        DeviceV::Joypad => Ok(0),
        DeviceV::NameTables { vram, mirroring } => spec_ram_read(
            vram,
            spec_mirror_address(mirroring, addr),
        ),
        DeviceV::Palettes(vram) => spec_ram_read(vram, (w_sub16(addr, 0x3F00) % 0x20) as u16),
        _ => Err(EmuError::UnsupportedRead { addr }),
    }
}

/// What a write to a self-contained device does.  Audio and input devices
/// are external collaborators: their register writes are accepted and
/// absorbed here.
pub open spec fn spec_local_write(d: DeviceV, addr: u16, value: u8) -> (DeviceV, Result<
    (),
    EmuError,
>) {
    match d {
        DeviceV::Ram(mem) => {
            let (mem2, r) = spec_ram_write(mem, (addr % 0x800) as u16, value);
            (DeviceV::Ram(mem2), r)
        },
        DeviceV::Apu => if addr == 0x4009 || addr == 0x400D {
            (d, Err(EmuError::UnsupportedWrite { addr }))
        } else {
            (d, Ok(()))
        },
        DeviceV::Joypad => (d, Ok(())),
        DeviceV::NameTables { vram, mirroring } => {
            let (vram2, r) = spec_ram_write(vram, spec_mirror_address(mirroring, addr), value);
            (DeviceV::NameTables { vram: vram2, mirroring }, r)
        },
        DeviceV::Palettes(vram) => {
            let (vram2, r) = spec_ram_write(vram, (w_sub16(addr, 0x3F00) % 0x20) as u16, value);
            (DeviceV::Palettes(vram2), r)
        },
        _ => (d, Err(EmuError::UnsupportedWrite { addr })),
    }
}

/// How the owning board must dispatch a device: self-contained slots are
/// served by the bus itself; the rest reach other parts of the machine.
#[derive(Clone, Copy, Debug, PartialEq, Eq, Structural)]
pub enum DeviceTag {
    /// Served in place: RAM, nametables, palettes, audio and input stubs.
    Local,
    /// The video unit's register ports.
    Ppu,
    /// The DMA trigger port.
    Dma,
    /// Cartridge space on the processor bus.
    Cartridge,
    /// Cartridge character data on the video bus.
    PatternTables,
    /// The whole-space mirror.
    MirrorBus,
}

pub open spec fn spec_device_tag(d: DeviceV) -> DeviceTag {
    match d {
        DeviceV::Ram(_) => DeviceTag::Local,
        DeviceV::Apu => DeviceTag::Local,
        DeviceV::Joypad => DeviceTag::Local,
        DeviceV::NameTables { .. } => DeviceTag::Local,
        DeviceV::Palettes(_) => DeviceTag::Local,
        DeviceV::Ppu => DeviceTag::Ppu,
        DeviceV::Dma => DeviceTag::Dma,
        DeviceV::Cartridge => DeviceTag::Cartridge,
        DeviceV::PatternTables => DeviceTag::PatternTables,
        DeviceV::MirrorBus => DeviceTag::MirrorBus,
    }
}

/// A device slot with any RAM it carries cleared; other devices are kept.
pub open spec fn spec_reset_ram_device(d: DeviceV) -> DeviceV {
    match d {
        DeviceV::Ram(mem) => DeviceV::Ram(Seq::new(mem.len(), |i: int| 0u8)),
        _ => d,
    }
}

/// Every RAM device on the bus cleared.
pub open spec fn spec_reset_rams(devs: Seq<DeviceV>) -> Seq<DeviceV> {
    Seq::new(devs.len(), |i: int| spec_reset_ram_device(devs[i]))
}

/// What a standalone bus read returns: the first claiming device answers.
pub open spec fn spec_bus_read(devs: Seq<DeviceV>, addr: u16) -> Result<u8, EmuError> {
    match spec_find_claim(devs, addr) {
        None => Err(EmuError::UnclaimedAddress { addr }),
        Some(i) => spec_local_read(devs[i], addr),
    }
}

/// What a standalone bus write does: the first claiming device takes it.
pub open spec fn spec_bus_write(devs: Seq<DeviceV>, addr: u16, data: u8) -> (Seq<DeviceV>, Result<
    (),
    EmuError,
>) {
    match spec_find_claim(devs, addr) {
        None => (devs, Err(EmuError::UnclaimedAddress { addr })),
        Some(i) => {
            let (d2, r) = spec_local_write(devs[i], addr, data);
            (devs.update(i, d2), r)
        },
    }
}

/// An ordered collection of registered devices.
pub struct BusImpl {
    pub devices: Vec<BusDevice>,
}

impl View for BusImpl {
    type V = Seq<DeviceV>;

    open spec fn view(&self) -> Seq<DeviceV> {
        Seq::new(self.devices@.len(), |i: int| self.devices@[i]@)
    }
}

impl BusDevice {
    /// Whether this device claims the address.
    pub fn address_accept(&self, addr: u16) -> (r: bool)
        ensures
            r == spec_device_claims(self@, addr),
    {
        match self {
            BusDevice::Ram(_) => addr < 0x2000,
            BusDevice::Ppu => 0x2000 <= addr && addr < 0x4000,
            BusDevice::Apu => (0x4000 <= addr && addr < 0x4014) || addr == 0x4015,
            BusDevice::Dma => addr == 0x4014,
            BusDevice::Joypad => addr == 0x4016 || addr == 0x4017,
            BusDevice::Cartridge => addr >= 0x4020,
            BusDevice::PatternTables => addr < 0x2000,
            BusDevice::NameTables(_) => 0x2000 <= addr && addr < 0x3F00,
            BusDevice::Palettes(_) => 0x3F00 <= addr && addr < 0x4000,
            BusDevice::MirrorBus => addr >= 0x4000,
        }
    }
}

impl BusImpl {
    /// An empty bus: no device claims anything.
    pub fn new() -> (r: BusImpl)
        ensures
            r@ == Seq::<DeviceV>::empty(),
    {
        let r = BusImpl { devices: Vec::new() };
        proof {
            assert(r@ =~= Seq::<DeviceV>::empty());
        }
        r
    }

    /// Appends a device; it is asked after every earlier one.
    pub fn register_device(&mut self, device: BusDevice)
        ensures
            final(self)@ == old(self)@.push(device@),
    {
        self.devices.push(device);
        proof {
            assert(final(self)@ =~= old(self)@.push(device@));
        }
    }

    /// The index of the first device claiming `addr`.
    pub fn find_device(&self, addr: u16) -> (r: Option<usize>)
        ensures
            match r {
                Some(i) => spec_find_claim(self@, addr) == Some(i as int),
                None => spec_find_claim(self@, addr) is None,
            },
    {
        let n = self.devices.len();
        let mut i: usize = 0;
        while i < n
            invariant
                i <= n,
                n == self.devices@.len(),
                forall|j: int| 0 <= j < i ==> !spec_device_claims(self@[j], addr),
            decreases n - i,
        {
            if self.devices[i].address_accept(addr) {
                proof {
                    lemma_find_claim_characterization(self@, addr, i as int);
                }
                return Some(i);
            }
            i = i + 1;
        }
        proof {
            lemma_find_claim_none(self@, addr);
        }
        None
    }

    /// Whether any registered device claims `addr`; lets a whole bus stand
    /// behind a mirroring device on another bus.
    pub fn address_accept(&self, addr: u16) -> (r: bool)
        ensures
            r == (spec_find_claim(self@, addr) is Some),
    {
        self.find_device(addr).is_some()
    }

    /// How the board must dispatch the device at slot `i`.
    pub fn device_tag(&self, i: usize) -> (t: DeviceTag)
        requires
            i < self@.len(),
        ensures
            t == spec_device_tag(self@[i as int]),
    {
        match &self.devices[i] {
            BusDevice::Ram(_) => DeviceTag::Local,
            BusDevice::Apu => DeviceTag::Local,
            BusDevice::Joypad => DeviceTag::Local,
            BusDevice::NameTables(_) => DeviceTag::Local,
            BusDevice::Palettes(_) => DeviceTag::Local,
            BusDevice::Ppu => DeviceTag::Ppu,
            BusDevice::Dma => DeviceTag::Dma,
            BusDevice::Cartridge => DeviceTag::Cartridge,
            BusDevice::PatternTables => DeviceTag::PatternTables,
            BusDevice::MirrorBus => DeviceTag::MirrorBus,
        }
    }

    /// Clears every RAM device registered on the bus.
    pub fn reset_ram(&mut self)
        ensures
            final(self)@ == spec_reset_rams(old(self)@),
    {
        let n = self.devices.len();
        let mut i: usize = 0;
        while i < n
            invariant
                i <= n,
                n == self.devices@.len(),
                self@.len() == old(self)@.len(),
                forall|k: int| 0 <= k < i ==> self@[k] == spec_reset_ram_device(old(self)@[k]),
                forall|k: int| i <= k < n ==> self@[k] == old(self)@[k],
            decreases n - i,
        {
            let ghost pre_iter = self@;
            match &mut self.devices[i] {
                BusDevice::Ram(a) => {
                    a.ram.reset();
                    proof {
                        assert(a.ram@ =~= (match old(self)@[i as int] {
                            DeviceV::Ram(mem) => Seq::new(mem.len(), |x: int| 0u8),
                            _ => a.ram@,
                        }));
                    }
                },
                _ => {},
            }
            proof {
                assert(self@[i as int] == spec_reset_ram_device(old(self)@[i as int]));
                assert forall|k: int| 0 <= k < i + 1 implies self@[k] == spec_reset_ram_device(
                    old(self)@[k],
                ) by {
                    if k < i {
                        assert(self@[k] == pre_iter[k]);
                        assert(pre_iter[k] == spec_reset_ram_device(old(self)@[k]));
                    }
                }
            }
            i = i + 1;
        }
        proof {
            assert(final(self)@ =~= spec_reset_rams(old(self)@));
        }
    }

    /// Reads through first-match dispatch.  Self-contained devices answer
    /// directly; an address claimed by a device that needs the owning board
    /// is out of this standalone bus's contract.
    pub fn read(&self, addr: u16) -> (r: Result<u8, EmuError>)
        ensures
            r == spec_bus_read(self@, addr),
    {
        match self.find_device(addr) {
            None => Err(EmuError::UnclaimedAddress { addr }),
            Some(i) => {
                proof {
                    lemma_find_claim_found(self@, addr);
                }
                self.local_read(i, addr)
            },
        }
    }

    /// Writes through first-match dispatch, as `read` reads.
    pub fn write(&mut self, addr: u16, data: u8) -> (r: Result<(), EmuError>)
        ensures
            ({
                let (d2, r2) = spec_bus_write(old(self)@, addr, data);
                &&& final(self)@ == d2
                &&& r == r2
            }),
    {
        match self.find_device(addr) {
            None => Err(EmuError::UnclaimedAddress { addr }),
            Some(i) => {
                proof {
                    lemma_find_claim_found(self@, addr);
                }
                self.local_write(i, addr, data)
            },
        }
    }

    /// Reads from the self-contained device at slot `i`.
    pub fn local_read(&self, i: usize, addr: u16) -> (r: Result<u8, EmuError>)
        requires
            i < self@.len(),
        ensures
            r == spec_local_read(self@[i as int], addr),
    {
        match &self.devices[i] {
            BusDevice::Ram(a) => a.ram.read(addr % 0x800),
            BusDevice::Apu => {
                if addr == 0x4015 {
                    Ok(0)
                } else {
                    Err(EmuError::UnsupportedRead { addr })
                }
            },
            BusDevice::Joypad => Ok(0),
            BusDevice::NameTables(a) => a.vram.read(a.mirror_address(addr)),
            BusDevice::Palettes(a) => a.vram.read(addr.wrapping_sub(0x3F00) % 0x20),
            _ => Err(EmuError::UnsupportedRead { addr }),
        }
    }

    /// Writes to the self-contained device at slot `i`.
    pub fn local_write(&mut self, i: usize, addr: u16, value: u8) -> (r: Result<(), EmuError>)
        requires
            i < old(self)@.len(),
        ensures
            ({
                let (d2, r2) = spec_local_write(old(self)@[i as int], addr, value);
                &&& final(self)@ == old(self)@.update(i as int, d2)
                &&& r == r2
            }),
    {
        let ghost pre = self@;
        let r = match &mut self.devices[i] {
            BusDevice::Ram(a) => a.ram.write(addr % 0x800, value),
            BusDevice::Apu => {
                if addr == 0x4009 || addr == 0x400D {
                    Err(EmuError::UnsupportedWrite { addr })
                } else {
                    Ok(())
                }
            },
            BusDevice::Joypad => Ok(()),
            BusDevice::NameTables(a) => {
                let folded = a.mirror_address(addr);
                a.vram.write(folded, value)
            },
            BusDevice::Palettes(a) => a.vram.write(addr.wrapping_sub(0x3F00) % 0x20, value),
            _ => Err(EmuError::UnsupportedWrite { addr }),
        };
        proof {
            let (d2, r2) = spec_local_write(pre[i as int], addr, value);
            assert(final(self)@ =~= pre.update(i as int, d2));
        }
        r
    }
}

} // verus!
