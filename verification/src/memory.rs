use vstd::prelude::*;

use crate::error::Chip8Error;

verus! {

/// Number of addressable 8-bit cells.
pub const MEMORY_SIZE: usize = 4096;

/// Flat byte memory with bounds-checked access. Every cell is zero at
/// creation; any access at or past `MEMORY_SIZE` fails with
/// `Chip8Error::OutOfBounds`.
pub struct Memory {
    data: [u8; MEMORY_SIZE],
}

impl View for Memory {
    type V = Seq<u8>;

    closed spec fn view(&self) -> Seq<u8> {
        self.data@
    }
}

/// Memory always holds exactly `MEMORY_SIZE` cells.
pub broadcast proof fn lemma_memory_len(m: &Memory)
    ensures
        #[trigger] m@.len() == MEMORY_SIZE,
{
}

/// The memory contents after writing `data` as one block starting at
/// `address`: cells inside the block take the block's bytes, all others keep
/// their old value.
pub open spec fn write_bytes_spec(mem: Seq<u8>, address: int, data: Seq<u8>) -> Seq<u8> {
    Seq::new(
        mem.len(),
        |j: int|
            if address <= j < address + data.len() {
                data[j - address]
            } else {
                mem[j]
            },
    )
}

/// The big-endian 16-bit word held at `address`: high byte first.
pub open spec fn word_at(mem: Seq<u8>, address: int) -> u16 {
    (mem[address] * 256 + mem[address + 1]) as u16
}

/// Round trip: after a block write, every byte of the block reads back
/// from its cell unchanged, and every cell outside the block is as it was.
pub proof fn lemma_write_read_round_trip(mem: Seq<u8>, address: int, data: Seq<u8>)
    requires
        0 <= address,
        address + data.len() <= mem.len(),
    ensures
        forall|i: int|
            0 <= i < data.len() ==> write_bytes_spec(mem, address, data)[address + i] == data[i],
        forall|j: int|
            0 <= j < mem.len() && !(address <= j < address + data.len())
                ==> write_bytes_spec(mem, address, data)[j] == mem[j],
{
}

impl Memory {
    /// Fresh memory, all cells zero.
    pub fn new() -> (m: Memory)
        ensures
            m@.len() == MEMORY_SIZE,
            forall|j: int| 0 <= j < MEMORY_SIZE ==> m@[j] == 0u8,
    {
        Memory { data: [0u8; MEMORY_SIZE] }
    }

    /// Stores `value` at `address`; rejects an address past the end.
    pub fn write_byte(&mut self, address: u16, value: u8) -> (r: Result<(), Chip8Error>)
        ensures
            address < MEMORY_SIZE ==> r == Ok::<(), Chip8Error>(())
                && final(self)@ == old(self)@.update(address as int, value),
            address >= MEMORY_SIZE ==> r == Err::<(), Chip8Error>(
                Chip8Error::OutOfBounds { address },
            ) && final(self)@ == old(self)@,
    {
        if (address as usize) < MEMORY_SIZE {
            self.data[address as usize] = value;
            Ok(())
        } else {
            Err(Chip8Error::OutOfBounds { address })
        }
    }

    /// Stores `data` as one block starting at `address`; rejects a block
    /// whose end would pass the end of memory, reporting the start address,
    /// and then leaves memory unchanged.
    pub fn write_bytes(&mut self, address: u16, data: &[u8]) -> (r: Result<(), Chip8Error>)
        ensures
            address + data@.len() <= MEMORY_SIZE ==> r == Ok::<(), Chip8Error>(())
                && final(self)@ == write_bytes_spec(old(self)@, address as int, data@),
            address + data@.len() > MEMORY_SIZE ==> r == Err::<(), Chip8Error>(
                Chip8Error::OutOfBounds { address },
            ) && final(self)@ == old(self)@,
    {
        let len: usize = data.len();
        if len > MEMORY_SIZE || (address as usize) > MEMORY_SIZE - len {
            return Err(Chip8Error::OutOfBounds { address });
        }
        let mut k: usize = 0;
        while k < len
            invariant
                len == data@.len(),
                k <= len,
                address + len <= MEMORY_SIZE,
                self@.len() == MEMORY_SIZE,
                forall|j: int|
                    0 <= j < MEMORY_SIZE ==> self@[j] == (if address <= j < address + k {
                        data@[j - address]
                    } else {
                        old(self)@[j]
                    }),
            decreases len - k,
        {
            self.data[address as usize + k] = data[k];
            k = k + 1;
        }
        proof {
            assert(self@ =~= write_bytes_spec(old(self)@, address as int, data@));
        }
        Ok(())
    }

    /// The big-endian word whose high byte sits at `program_counter`;
    /// rejects an address whose second byte would fall past the end.
    pub fn read_word(&self, program_counter: u16) -> (r: Result<u16, Chip8Error>)
        ensures
            program_counter + 1 < MEMORY_SIZE ==> r == Ok::<u16, Chip8Error>(
                word_at(self@, program_counter as int),
            ),
            program_counter + 1 >= MEMORY_SIZE ==> r == Err::<u16, Chip8Error>(
                Chip8Error::OutOfBounds { address: program_counter },
            ),
    {
        if (program_counter as usize) + 1 < MEMORY_SIZE {
            let high = self.data[program_counter as usize];
            let low = self.data[program_counter as usize + 1];
            Ok((high as u16) * 256 + (low as u16))
        } else {
            Err(Chip8Error::OutOfBounds { address: program_counter })
        }
    }

    /// The byte at `address`; rejects an address past the end.
    pub fn read_byte(&self, address: u16) -> (r: Result<u8, Chip8Error>)
        ensures
            address < MEMORY_SIZE ==> r == Ok::<u8, Chip8Error>(self@[address as int]),
            address >= MEMORY_SIZE ==> r == Err::<u8, Chip8Error>(
                Chip8Error::OutOfBounds { address },
            ),
    {
        if (address as usize) < MEMORY_SIZE {
            Ok(self.data[address as usize])
        } else {
            Err(Chip8Error::OutOfBounds { address })
        }
    }
}

} // verus!
