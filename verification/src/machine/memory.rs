use vstd::prelude::*;

verus! {

/// Number of addressable bytes.
pub const MEMORY_SIZE: usize = 4096;

/// The machine's flat byte store.
#[derive(Clone, Debug)]
pub struct RAM {
    data: [u8; 4096],
}

impl View for RAM {
    type V = Seq<u8>;

    /// The contents as a sequence of exactly `MEMORY_SIZE` bytes, indexed by address.
    closed spec fn view(&self) -> Seq<u8> {
        self.data@
    }
}

/// `memory` with `bytes` laid over it from address `start` on.
pub open spec fn block_written(memory: Seq<u8>, start: int, bytes: Seq<u8>) -> Seq<u8> {
    Seq::new(
        memory.len(),
        |a: int|
            if start <= a < start + bytes.len() {
                bytes[a - start]
            } else {
                memory[a]
            },
    )
}

impl RAM {
    /// Every `RAM` holds exactly `MEMORY_SIZE` bytes.
    pub proof fn lemma_len(&self)
        ensures
            self@.len() == MEMORY_SIZE,
    {
    }

    pub fn new() -> (ram: Self)
        ensures
            ram@ == Seq::new(MEMORY_SIZE as nat, |a: int| 0u8),
    {
        Self::default()
    }

    pub fn read(&self, address: u16) -> (byte: u8)
        requires
            address < MEMORY_SIZE,
        ensures
            byte == self@[address as int],
    {
        self.data[address as usize]
    }

    pub fn write(&mut self, address: u16, byte: u8)
        requires
            address < MEMORY_SIZE,
        ensures
            final(self)@ == old(self)@.update(address as int, byte),
    {
        self.data[address as usize] = byte;
    }

    pub fn write_block(&mut self, start_addr: u16, bytes: &[u8])
        requires
            start_addr + bytes@.len() <= MEMORY_SIZE,
        ensures
            final(self)@ == block_written(old(self)@, start_addr as int, bytes@),
    {
        let dest_start: usize = start_addr as usize;
        let mut k: usize = 0;
        while k < bytes.len()
            invariant
                k <= bytes@.len(),
                dest_start == start_addr,
                dest_start + bytes@.len() <= MEMORY_SIZE,
                self@ == block_written(old(self)@, start_addr as int, bytes@.take(k as int)),
            decreases bytes@.len() - k,
        {
            self.data[dest_start + k] = bytes[k];
            k += 1;
        }
    }
}

impl Default for RAM {
    fn default() -> (ram: Self)
        ensures
            ram@ == Seq::new(MEMORY_SIZE as nat, |a: int| 0u8),
    {
        Self { data: [0;4096] }
    }
}

} // verus!
