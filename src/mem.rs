use vstd::prelude::*;

verus! {

/// Number of bytes in the 16-bit address space.
pub const MEM_SIZE: usize = 0x10000;

/// Flat byte-addressable memory covering every 16-bit address.
pub struct Memory {
    mem: Vec<u8>,
}

/// Hardware region an address belongs to.
#[derive(Clone, Copy, Debug, PartialEq, Eq, Structural)]
pub enum MemAddress {
    ROMBank,
    VRAM,
    ExternalRAM,
    WRAM,
    EchoRAM,
    OAM,
    Unusable,
    IO,
    HRAM,
    IE,
}

/// The region table of the address space.
pub open spec fn region_of(addr: u16) -> MemAddress {
    if addr <= 0x7FFF {
        MemAddress::ROMBank
    } else if addr <= 0x9FFF {
        MemAddress::VRAM
    } else if addr <= 0xBFFF {
        MemAddress::ExternalRAM
    } else if addr <= 0xDFFF {
        MemAddress::WRAM
    } else if addr <= 0xFDFF {
        MemAddress::EchoRAM
    } else if addr <= 0xFE9F {
        MemAddress::OAM
    } else if addr <= 0xFEFF {
        MemAddress::Unusable
    } else if addr <= 0xFF7F {
        MemAddress::IO
    } else if addr <= 0xFFFE {
        MemAddress::HRAM
    } else {
        MemAddress::IE
    }
}

impl View for Memory {
    type V = Seq<u8>;

    closed spec fn view(&self) -> Seq<u8> {
        self.mem@
    }
}

impl Memory {
    /// The memory holds exactly one byte per 16-bit address.
    pub open spec fn wf(&self) -> bool {
        self@.len() == MEM_SIZE
    }

    /// A zero-filled address space.
    pub fn default() -> (m: Memory)
        ensures
            m.wf(),
            m@ == Seq::new(MEM_SIZE as nat, |i: int| 0u8),
    {
        let m = Memory { mem: vec![0u8; MEM_SIZE] };
        assert(m@ =~= Seq::new(MEM_SIZE as nat, |i: int| 0u8));
        m
    }

    /// Stores `data` at `mem_addr`; every other byte is kept.
    pub fn write(&mut self, mem_addr: u16, data: u8)
        requires
            old(self).wf(),
        ensures
            final(self).wf(),
            final(self)@ == old(self)@.update(mem_addr as int, data),
    {
        self.mem.set(mem_addr as usize, data);
    }

    /// The byte stored at `mem_addr`.
    pub fn read(&self, mem_addr: u16) -> (r: u8)
        requires
            self.wf(),
        ensures
            r == self@[mem_addr as int],
    {
        self.mem[mem_addr as usize]
    }

    /// Resets every byte to zero.
    pub fn clear(&mut self)
        requires
            old(self).wf(),
        ensures
            final(self).wf(),
            final(self)@ == Seq::new(MEM_SIZE as nat, |i: int| 0u8),
    {
        let mut i: usize = 0;
        while i < MEM_SIZE
            invariant
                self.mem@.len() == MEM_SIZE,
                0 <= i <= MEM_SIZE,
                forall|j: int| 0 <= j < i ==> self.mem@[j] == 0u8,
            decreases MEM_SIZE - i,
        {
            self.mem.set(i, 0);
            i = i + 1;
        }
        assert(self@ =~= Seq::new(MEM_SIZE as nat, |i: int| 0u8));
    }

    /// Classifies an address into its hardware region.
    pub fn addr_to_type(mem_addr: u16) -> (r: MemAddress)
        ensures
            r == region_of(mem_addr),
    {
        if mem_addr <= 0x7FFF {
            MemAddress::ROMBank
        } else if mem_addr <= 0x9FFF {
            MemAddress::VRAM
        } else if mem_addr <= 0xBFFF {
            MemAddress::ExternalRAM
        } else if mem_addr <= 0xDFFF {
            MemAddress::WRAM
        } else if mem_addr <= 0xFDFF {
            MemAddress::EchoRAM
        } else if mem_addr <= 0xFE9F {
            MemAddress::OAM
        } else if mem_addr <= 0xFEFF {
            MemAddress::Unusable
        } else if mem_addr <= 0xFF7F {
            MemAddress::IO
        } else if mem_addr <= 0xFFFE {
            MemAddress::HRAM
        } else {
            MemAddress::IE
        }
    }
}

/// Writing a byte and reading the same address gives that byte back.
pub proof fn lemma_write_read(m: Seq<u8>, addr: u16, b: u8)
    requires
        m.len() == MEM_SIZE,
    ensures
        m.update(addr as int, b)[addr as int] == b,
{
}

/// After clearing, every address reads zero.
pub proof fn lemma_clear_reads_zero(addr: u16)
    ensures
        Seq::new(MEM_SIZE as nat, |i: int| 0u8)[addr as int] == 0u8,
{
}

} // verus!
