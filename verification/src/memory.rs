use vstd::prelude::*;

verus! {

pub type Word = u8;

pub type DWord = u16;

/// Number of addressable bytes: every 16-bit address names one.
pub const MEMORY_SIZE: usize = 0x1_0000;

/// `mem` with `block` laid over it from `start` on; bytes outside the block stay.
pub open spec fn with_block(mem: Seq<u8>, start: int, block: Seq<u8>) -> Seq<u8> {
    Seq::new(
        mem.len(),
        |i: int|
            if start <= i < start + block.len() {
                block[i - start]
            } else {
                mem[i]
            },
    )
}

/// Memory map
///
/// Starts at 0x0000, ends at 0xFFFF.
///
/// - `0x0000..0x2000` is RAM space
/// - `0x2000..0x4020` is redirected to the console's hardware: video, audio, game pads
/// - `0x4020..0x6000` is controlled by memory mappers on cartridges
/// - `0x6000..0x8000` is reserved to RAM space on the cartridge
/// - `0x8000..=0xFFFF` is program ROM
///
/// The processor core sees none of these ranges: to it the memory is one flat
/// array of bytes. Its view is a `Seq<u8>` of length [`MEMORY_SIZE`], indexed
/// by address.
pub struct Memory {
    cells: Vec<Word>,
}

impl View for Memory {
    type V = Seq<u8>;

    closed spec fn view(&self) -> Seq<u8> {
        self.cells@
    }
}

impl Memory {
    /// Every memory holds exactly one byte per address.
    #[verifier::type_invariant]
    pub open spec fn wf(&self) -> bool {
        self@.len() == MEMORY_SIZE
    }

    /// The byte at `addr`.
    pub fn read(&self, addr: usize) -> (data: u8)
        requires
            addr < MEMORY_SIZE,
        ensures
            data == self@[addr as int],
    {
        proof {
            use_type_invariant(self);
        }
        self.cells[addr]
    }

    /// Puts `data` at `addr`; every other byte stays.
    pub fn write(&mut self, addr: usize, data: u8)
        requires
            addr < MEMORY_SIZE,
        ensures
            final(self)@ == old(self)@.update(addr as int, data),
    {
        proof {
            use_type_invariant(&*self);
        }
        self.cells[addr] = data;
    }

    /// Copies `data` over the addresses `start..end`; every other byte stays.
    pub fn write_array(&mut self, start: usize, end: usize, data: &[u8])
        requires
            start <= end <= MEMORY_SIZE,
            data@.len() == end - start,
        ensures
            final(self)@ == with_block(old(self)@, start as int, data@),
    {
        proof {
            use_type_invariant(&*self);
        }
        let mut i: usize = start;
        while i < end
            invariant
                start <= i <= end <= MEMORY_SIZE,
                data@.len() == end - start,
                self.cells@.len() == MEMORY_SIZE,
                self.cells@ == with_block(old(self)@, start as int, data@.take(i - start)),
            decreases end - i,
        {
            self.cells[i] = data[i - start];
            i += 1;
        }
        assert(data@.take(end - start) == data@);
    }
}

impl Default for Memory {
    /// A memory of zeros.
    fn default() -> (memory: Self)
        ensures
            memory@ == Seq::new(MEMORY_SIZE as nat, |i: int| 0u8),
    {
        Memory { cells: vec![0u8; MEMORY_SIZE] }
    }
}

} // verus!
