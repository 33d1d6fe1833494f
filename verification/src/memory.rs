//! The machine's memory: a flat array of bytes, addressed by 16-bit numbers.

use vstd::prelude::*;
use crate::bits::{high_byte, low_byte, make_word, make_word32, split_word, word32, word_of};

verus! {

/// Why a memory access was refused.
#[derive(Clone, Copy, Debug, PartialEq, Eq, Structural)]
pub enum MemoryError {
    /// A byte of the access lies at or beyond the end of memory.
    OutOfBounds,
}

/// A flat byte store. Sixteen-bit values are stored high byte first.
#[derive(Debug)]
pub struct Memory {
    bytes: Vec<u8>,
}

/// The 16-bit value stored at `address` in `bytes`, high byte first.
pub open spec fn word_at(bytes: Seq<u8>, address: int) -> u16 {
    word_of(bytes[address], bytes[address + 1])
}

/// `bytes` with the 16-bit `value` stored at `address`, high byte first.
pub open spec fn with_word(bytes: Seq<u8>, address: int, value: u16) -> Seq<u8> {
    bytes.update(address, high_byte(value)).update(address + 1, low_byte(value))
}

/// The 32-bit value stored at `address` in `bytes`, first byte on top.
pub open spec fn word32_at(bytes: Seq<u8>, address: int) -> u32 {
    word32(bytes[address], bytes[address + 1], bytes[address + 2], bytes[address + 3])
}

/// The 24-bit value stored at `address` in `bytes`, first byte on top.
pub open spec fn word24_at(bytes: Seq<u8>, address: int) -> u32 {
    word32(0, bytes[address], bytes[address + 1], bytes[address + 2])
}

/// `bytes` with `image` copied over it from `address` on.
pub open spec fn overlaid(bytes: Seq<u8>, address: int, image: Seq<u8>) -> Seq<u8> {
    Seq::new(
        bytes.len(),
        |a: int|
            if address <= a < address + image.len() {
                image[a - address]
            } else {
                bytes[a]
            },
    )
}

impl View for Memory {
    type V = Seq<u8>;

    closed spec fn view(&self) -> Seq<u8> {
        self.bytes@
    }
}

impl Memory {
    /// A memory of `size` bytes, all zero.
    pub fn new(size: usize) -> (memory: Memory)
        ensures
            memory@.len() == size,
            forall|i: int| 0 <= i < size ==> memory@[i] == 0u8,
    {
        Memory { bytes: vec![0u8; size] }
    }

    /// The number of bytes.
    pub fn size(&self) -> (n: usize)
        ensures
            n == self@.len(),
    {
        self.bytes.len()
    }

    /// Reads the byte at `address`.
    pub fn read_u8(&self, address: u16) -> (r: Result<u8, MemoryError>)
        ensures
            address < self@.len() ==> r == Ok::<u8, MemoryError>(self@[address as int]),
            address >= self@.len() ==> r == Err::<u8, MemoryError>(MemoryError::OutOfBounds),
    {
        let a: usize = address as usize;
        if a < self.bytes.len() {
            Ok(self.bytes[a])
        } else {
            Err(MemoryError::OutOfBounds)
        }
    }

    /// Reads the 16-bit value whose high byte is at `address` and whose low
    /// byte is at `address + 1`.
    pub fn read_u16(&self, address: u16) -> (r: Result<u16, MemoryError>)
        ensures
            address + 1 < self@.len() ==> r == Ok::<u16, MemoryError>(
                word_at(self@, address as int),
            ),
            address + 1 >= self@.len() ==> r == Err::<u16, MemoryError>(MemoryError::OutOfBounds),
    {
        let a: usize = address as usize;
        if a < self.bytes.len() && a + 1 < self.bytes.len() {
            Ok(make_word(self.bytes[a], self.bytes[a + 1]))
        } else {
            Err(MemoryError::OutOfBounds)
        }
    }

    /// Reads the 24-bit value whose bytes are at `address`, `address + 1`
    /// and `address + 2`, the first of them on top.
    pub fn read_u24(&self, address: u16) -> (r: Result<u32, MemoryError>)
        ensures
            address + 2 < self@.len() ==> r == Ok::<u32, MemoryError>(
                word24_at(self@, address as int),
            ),
            address + 2 >= self@.len() ==> r == Err::<u32, MemoryError>(MemoryError::OutOfBounds),
    {
        let a: usize = address as usize;
        if a + 2 < self.bytes.len() {
            Ok(make_word32(0, self.bytes[a], self.bytes[a + 1], self.bytes[a + 2]))
        } else {
            Err(MemoryError::OutOfBounds)
        }
    }

    /// Reads the 32-bit value whose bytes are at `address` to
    /// `address + 3`, the first of them on top.
    pub fn read_u32(&self, address: u16) -> (r: Result<u32, MemoryError>)
        ensures
            address + 3 < self@.len() ==> r == Ok::<u32, MemoryError>(
                word32_at(self@, address as int),
            ),
            address + 3 >= self@.len() ==> r == Err::<u32, MemoryError>(MemoryError::OutOfBounds),
    {
        let a: usize = address as usize;
        if a + 3 < self.bytes.len() {
            Ok(
                make_word32(
                    self.bytes[a],
                    self.bytes[a + 1],
                    self.bytes[a + 2],
                    self.bytes[a + 3],
                ),
            )
        } else {
            Err(MemoryError::OutOfBounds)
        }
    }

    /// Copies `image` into memory from `address` on. An image that does not
    /// fit is refused, and nothing of it is written.
    pub fn load(&mut self, address: u16, image: &[u8]) -> (r: Result<(), MemoryError>)
        ensures
            address + image@.len() <= old(self)@.len() ==> r == Ok::<(), MemoryError>(())
                && final(self)@ == overlaid(old(self)@, address as int, image@),
            address + image@.len() > old(self)@.len() ==> r == Err::<(), MemoryError>(
                MemoryError::OutOfBounds,
            ) && final(self)@ == old(self)@,
    {
        let start: usize = address as usize;
        let size: usize = self.bytes.len();
        if start > size || image.len() > size - start {
            return Err(MemoryError::OutOfBounds);
        }
        let count: usize = image.len();
        let mut i: usize = 0;
        while i < count
            invariant
                i <= count,
                count == image@.len(),
                start == address,
                start + count <= size,
                size == old(self)@.len(),
                self.bytes@.len() == size,
                forall|a: int|
                    0 <= a < size ==> self.bytes@[a] == if start <= a < start + i {
                        image@[a - start]
                    } else {
                        old(self)@[a]
                    },
            decreases count - i,
        {
            self.bytes[start + i] = image[i];
            i = i + 1;
        }
        assert(self.bytes@ =~= overlaid(old(self)@, address as int, image@));
        Ok(())
    }

    /// Stores `value` at `address`. A refused write changes nothing.
    pub fn write_u8(&mut self, address: u16, value: u8) -> (r: Result<(), MemoryError>)
        ensures
            address < old(self)@.len() ==> r == Ok::<(), MemoryError>(()) && final(self)@
                == old(self)@.update(address as int, value),
            address >= old(self)@.len() ==> r == Err::<(), MemoryError>(MemoryError::OutOfBounds)
                && final(self)@ == old(self)@,
    {
        let a: usize = address as usize;
        if a < self.bytes.len() {
            self.bytes[a] = value;
            Ok(())
        } else {
            Err(MemoryError::OutOfBounds)
        }
    }

    /// Stores the high byte of `value` at `address` and its low byte at
    /// `address + 1`. A refused write changes nothing, not even the first
    /// byte.
    pub fn write_u16(&mut self, address: u16, value: u16) -> (r: Result<(), MemoryError>)
        ensures
            address + 1 < old(self)@.len() ==> r == Ok::<(), MemoryError>(()) && final(self)@
                == with_word(old(self)@, address as int, value),
            address + 1 >= old(self)@.len() ==> r == Err::<(), MemoryError>(
                MemoryError::OutOfBounds,
            ) && final(self)@ == old(self)@,
    {
        let a: usize = address as usize;
        if a < self.bytes.len() && a + 1 < self.bytes.len() {
            let (hi, lo) = split_word(value);
            self.bytes[a] = hi;
            self.bytes[a + 1] = lo;
            Ok(())
        } else {
            Err(MemoryError::OutOfBounds)
        }
    }
}

} // verus!
