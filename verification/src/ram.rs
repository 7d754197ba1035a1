//! Byte-addressable RAM with explicit bounds: an access outside the backing
//! storage is reported, never silently wrapped.

use vstd::prelude::*;

use crate::EmuError;

verus! {

/// A flat byte memory.  The work RAM, the nametable RAM, the palette RAM and
/// battery-backed save RAM are all instances of different sizes.
pub struct RamImpl {
    data: Vec<u8>,
}

impl View for RamImpl {
    type V = Seq<u8>;

    closed spec fn view(&self) -> Seq<u8> {
        self.data@
    }
}

/// What a read at `addr` returns: the byte, or an out-of-bounds fault.
pub open spec fn spec_ram_read(mem: Seq<u8>, addr: u16) -> Result<u8, EmuError> {
    if addr < mem.len() {
        Ok(mem[addr as int])
    } else {
        Err(EmuError::RamOutOfBounds { addr })
    }
}

/// What a write at `addr` leaves behind: the updated memory, or a fault and
/// the memory unchanged.
pub open spec fn spec_ram_write(mem: Seq<u8>, addr: u16, data: u8) -> (Seq<u8>, Result<
    (),
    EmuError,
>) {
    if addr < mem.len() {
        (mem.update(addr as int, data), Ok(()))
    } else {
        (mem, Err(EmuError::RamOutOfBounds { addr }))
    }
}

impl RamImpl {
    /// A zero-filled memory of `size` bytes.
    pub fn new(size: usize) -> (r: RamImpl)
        ensures
            r@ == Seq::new(size as nat, |i: int| 0u8),
    {
        let mut data: Vec<u8> = Vec::new();
        let mut i: usize = 0;
        while i < size
            invariant
                i <= size,
                data@ == Seq::new(i as nat, |j: int| 0u8),
            decreases size - i,
        {
            data.push(0);
            i = i + 1;
            proof {
                assert(data@ =~= Seq::new(i as nat, |j: int| 0u8));
            }
        }
        RamImpl { data }
    }

    pub fn read(&self, addr: u16) -> (r: Result<u8, EmuError>)
        ensures
            r == spec_ram_read(self@, addr),
    {
        if (addr as usize) < self.data.len() {
            Ok(self.data[addr as usize])
        } else {
            Err(EmuError::RamOutOfBounds { addr })
        }
    }

    pub fn write(&mut self, addr: u16, data: u8) -> (r: Result<(), EmuError>)
        ensures
            (final(self)@, r) == spec_ram_write(old(self)@, addr, data),
    {
        if (addr as usize) < self.data.len() {
            self.data.set(addr as usize, data);
            Ok(())
        } else {
            Err(EmuError::RamOutOfBounds { addr })
        }
    }

    /// Clears every byte, keeping the size.
    pub fn reset(&mut self)
        ensures
            final(self)@ == Seq::new(old(self)@.len(), |i: int| 0u8),
    {
        let n = self.data.len();
        let mut i: usize = 0;
        while i < n
            invariant
                i <= n,
                self.data@.len() == n,
                forall|j: int| 0 <= j < i ==> self.data@[j] == 0u8,
            decreases n - i,
        {
            self.data.set(i, 0);
            i = i + 1;
        }
        proof {
            assert(self.data@ =~= Seq::new(old(self)@.len(), |i: int| 0u8));
        }
    }

    /// The number of bytes of storage.
    pub fn len(&self) -> (r: usize)
        ensures
            r == self@.len(),
    {
        self.data.len()
    }
}

} // verus!
