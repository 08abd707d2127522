use vstd::prelude::*;

verus! {

/// Size of the address space: the 68000 drives a 24-bit address bus, so the
/// machine sees exactly 16 MiB of byte-addressable memory.
pub const RAM_SIZE: usize = 0x1000000;

/// A 24-bit address: the upper byte of a 32-bit address is ignored by the bus.
pub open spec fn mask24(addr: u32) -> u32 {
    addr & 0xFFFFFF
}

/// A masked address always lies inside the 16 MiB address space.
pub proof fn lemma_mask24_bound(addr: u32)
    ensures
        mask24(addr) < 0x1000000,
{
    assert(addr & 0xFFFFFF < 0x1000000) by (bit_vector);
}

/// Shifting a byte left keeps it within the corresponding field bound.
pub proof fn lemma_u8_shl_bounds(b: u8)
    ensures
        ((b as u32) << 24) <= 0xFF000000u32,
        ((b as u32) << 16) <= 0x00FF0000u32,
        ((b as u32) << 8) <= 0x0000FF00u32,
        ((b as u16) << 8) <= 0xFF00u16,
{
    assert(((b as u32) << 24) <= 0xFF000000u32 && ((b as u32) << 16) <= 0x00FF0000u32 && ((b
        as u32) << 8) <= 0x0000FF00u32 && ((b as u16) << 8) <= 0xFF00u16) by (bit_vector);
}

/// The big-endian word stored at `addr` (already masked, `addr + 1` in range).
pub open spec fn word_at(mem: Seq<u8>, addr: int) -> u16 {
    (((mem[addr] as u16) << 8) + (mem[addr + 1] as u16)) as u16
}

/// The big-endian long word stored at `addr` (already masked, `addr + 3` in range).
pub open spec fn long_at(mem: Seq<u8>, addr: int) -> u32 {
    (((mem[addr] as u32) << 24) + ((mem[addr + 1] as u32) << 16) + ((mem[addr + 2] as u32) << 8)
        + (mem[addr + 3] as u32)) as u32
}

/// Memory after storing `val` big-endian at `addr`.
pub open spec fn store_word(mem: Seq<u8>, addr: int, val: u16) -> Seq<u8> {
    mem.update(addr, ((val >> 8) & 0xFF) as u8).update(addr + 1, (val & 0xFF) as u8)
}

/// Memory after storing `val` big-endian at `addr`.
pub open spec fn store_long(mem: Seq<u8>, addr: int, val: u32) -> Seq<u8> {
    mem.update(addr, ((val >> 24) & 0xFF) as u8).update(addr + 1, ((val >> 16) & 0xFF) as u8)
        .update(addr + 2, ((val >> 8) & 0xFF) as u8).update(addr + 3, (val & 0xFF) as u8)
}

/// A word or long access is legal only at an even (masked) address; a long
/// access must additionally fit below the top of memory.
pub open spec fn word_aligned(addr: u32) -> bool {
    mask24(addr) % 2 == 0
}

pub open spec fn long_in_range(addr: u32) -> bool {
    mask24(addr) + 4 <= RAM_SIZE
}

/// The memory unit: a flat 16 MiB byte array addressed through a 24-bit bus,
/// with big-endian word and long access at even addresses.
pub struct Mmu {
    pub ram: Vec<u8>,
}

impl View for Mmu {
    type V = Seq<u8>;

    open spec fn view(&self) -> Seq<u8> {
        self.ram@
    }
}

impl Mmu {
    pub open spec fn wf(&self) -> bool {
        self.ram@.len() == RAM_SIZE
    }

    /// Copy a program image into memory starting at address 0.
    pub fn load(&mut self, buffer: &[u8])
        requires
            old(self).wf(),
            buffer@.len() <= 0xFFFFFF,
        ensures
            final(self).wf(),
            final(self)@.len() == old(self)@.len(),
            forall|i: int|
                0 <= i < final(self)@.len() ==> final(self)@[i] == if i < buffer@.len() {
                    buffer@[i]
                } else {
                    old(self)@[i]
                },
    {
        let mut i: usize = 0;
        while i < buffer.len()
            invariant
                self.wf(),
                buffer@.len() <= 0xFFFFFF,
                i <= buffer@.len(),
                self@.len() == old(self)@.len(),
                forall|j: int|
                    0 <= j < self@.len() ==> self@[j] == if j < i { buffer@[j] } else {
                        old(self)@[j]
                    },
            decreases buffer@.len() - i,
        {
            self.ram[i] = buffer[i];
            i = i + 1;
        }
    }

    /// Build a memory image from a buffer, zero-padded to the full 16 MiB.
    pub fn from_vec(buffer: Vec<u8>) -> (r: Mmu)
        requires
            buffer@.len() <= RAM_SIZE,
        ensures
            r.wf(),
            forall|i: int|
                0 <= i < RAM_SIZE ==> r@[i] == if i < buffer@.len() {
                    buffer@[i]
                } else {
                    0u8
                },
    {
        let mut ram = buffer;
        let mut n: usize = ram.len();
        while n < RAM_SIZE
            invariant
                n == ram@.len(),
                buffer@.len() <= n,
                n <= RAM_SIZE,
                forall|i: int|
                    0 <= i < ram@.len() ==> ram@[i] == if i < buffer@.len() {
                        buffer@[i]
                    } else {
                        0u8
                    },
            decreases RAM_SIZE - n,
        {
            let ghost orig = ram@;
            ram.push(0);
            proof {
                assert forall|i: int|
                    0 <= i < ram@.len() implies ram@[i] == (if i < buffer@.len() {
                    buffer@[i]
                } else {
                    0u8
                }) by {
                    if i < orig.len() {
                        assert(ram@[i] == orig[i]);
                    }
                }
            }
            n = n + 1;
        }
        Mmu { ram }
    }

    pub fn read_byte(&self, addr: u32) -> (r: u8)
        requires
            self.wf(),
        ensures
            r == self@[mask24(addr) as int],
    {
        proof {
            lemma_mask24_bound(addr);
        }
        let a = (addr & 0xFFFFFF) as usize;
        self.ram[a]
    }

    pub fn write_byte(&mut self, addr: u32, val: u8)
        requires
            old(self).wf(),
        ensures
            final(self).wf(),
            final(self)@ == old(self)@.update(mask24(addr) as int, val),
    {
        proof {
            lemma_mask24_bound(addr);
        }
        let a = (addr & 0xFFFFFF) as usize;
        self.ram[a] = val;
    }

    pub fn read_word(&self, addr: u32) -> (r: u16)
        requires
            self.wf(),
            word_aligned(addr),
        ensures
            r == word_at(self@, mask24(addr) as int),
    {
        proof {
            lemma_mask24_bound(addr);
        }
        let a = (addr & 0xFFFFFF) as usize;
        proof {
            lemma_u8_shl_bounds(self.ram@[a as int]);
        }
        ((self.ram[a] as u16) << 8) + (self.ram[a + 1] as u16)
    }

    pub fn write_word(&mut self, addr: u32, val: u16)
        requires
            old(self).wf(),
            word_aligned(addr),
        ensures
            final(self).wf(),
            final(self)@ == store_word(old(self)@, mask24(addr) as int, val),
    {
        proof {
            lemma_mask24_bound(addr);
        }
        let a = (addr & 0xFFFFFF) as usize;
        self.ram[a] = ((val >> 8) & 0xFF) as u8;
        self.ram[a + 1] = (val & 0xFF) as u8;
    }

    pub fn read_long(&self, addr: u32) -> (r: u32)
        requires
            self.wf(),
            word_aligned(addr),
            long_in_range(addr),
        ensures
            r == long_at(self@, mask24(addr) as int),
    {
        proof {
            lemma_mask24_bound(addr);
        }
        let a = (addr & 0xFFFFFF) as usize;
        proof {
            lemma_u8_shl_bounds(self.ram@[a as int]);
            lemma_u8_shl_bounds(self.ram@[a + 1]);
            lemma_u8_shl_bounds(self.ram@[a + 2]);
        }
        ((self.ram[a] as u32) << 24) + ((self.ram[a + 1] as u32) << 16) + ((self.ram[a
            + 2] as u32) << 8) + (self.ram[a + 3] as u32)
    }

    pub fn write_long(&mut self, addr: u32, val: u32)
        requires
            old(self).wf(),
            word_aligned(addr),
            long_in_range(addr),
        ensures
            final(self).wf(),
            final(self)@ == store_long(old(self)@, mask24(addr) as int, val),
    {
        proof {
            lemma_mask24_bound(addr);
        }
        let a = (addr & 0xFFFFFF) as usize;
        self.ram[a] = ((val >> 24) & 0xFF) as u8;
        self.ram[a + 1] = ((val >> 16) & 0xFF) as u8;
        self.ram[a + 2] = ((val >> 8) & 0xFF) as u8;
        self.ram[a + 3] = (val & 0xFF) as u8;
    }

    pub fn get_slice(&self) -> (r: &[u8])
        ensures
            r@ == self@,
    {
        self.ram.as_slice()
    }
}

impl Default for Mmu {
    fn default() -> (r: Self)
        ensures
            r.wf(),
            forall|i: int| 0 <= i < RAM_SIZE ==> r@[i] == 0u8,
    {
        Self { ram: vec![0u8; RAM_SIZE] }
    }
}

} // verus!
