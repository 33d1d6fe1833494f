//! The sixteen general registers.

use vstd::prelude::*;

verus! {

/// How many general registers the machine has.
pub const REGISTER_COUNT: usize = 16;

/// The general registers `r0` to `r15`: sixteen independent 16-bit values.
#[derive(Clone, Copy, Debug)]
pub struct RegisterFile {
    values: [u16; 16],
}

impl View for RegisterFile {
    type V = Seq<u16>;

    closed spec fn view(&self) -> Seq<u16> {
        self.values@
    }
}

impl RegisterFile {
    /// Sixteen registers, all zero.
    pub fn new() -> (file: RegisterFile)
        ensures
            file@ == Seq::new(16, |i: int| 0u16),
    {
        let file = RegisterFile { values: [0u16; 16] };
        assert(file@ =~= Seq::new(16, |i: int| 0u16));
        file
    }

    /// There are always sixteen registers.
    pub proof fn lemma_len(&self)
        ensures
            self@.len() == 16,
    {
    }

    /// The value of register `index`.
    pub fn get(&self, index: u8) -> (value: u16)
        requires
            index < 16,
        ensures
            value == self@[index as int],
    {
        self.values[index as usize]
    }

    /// Sets register `index` to `value` and leaves the others alone.
    pub fn set(&mut self, index: u8, value: u16)
        requires
            index < 16,
        ensures
            final(self)@ == old(self)@.update(index as int, value),
    {
        self.values[index as usize] = value;
    }
}

} // verus!
