use vstd::prelude::*;
use crate::instruction::Instruction;
use crate::memory::{Memory, MemoryFault};
use crate::traits;

verus! {

/// The address of the next instruction to fetch.
pub struct ProgramCounter {
    position: usize,
}

impl View for ProgramCounter {
    type V = usize;

    closed spec fn view(&self) -> usize {
        self.position
    }
}

impl ProgramCounter {
    pub fn new() -> (result: ProgramCounter)
        ensures
            result@ == 0,
    {
        ProgramCounter { position: 0 }
    }

    /// Fetches the two bytes at the counter and moves the counter behind them. Fails, and
    /// leaves the counter where it is, where the two bytes do not both lie in the memory.
    pub fn read(&mut self, memory: &Memory) -> (result: Result<Instruction, MemoryFault>)
        ensures
            old(self)@ + 1 < memory@.len() ==> final(self)@ == old(self)@ + 2 && (
            result matches Ok(instruction) && instruction == Instruction::from_bytes(
                memory@[old(self)@ as int],
                memory@[old(self)@ + 1],
            )),
            old(self)@ + 1 >= memory@.len() ==> final(self)@ == old(self)@ && (
            result matches Err(fault) && fault.spec_location() == if old(self)@ < memory@.len() {
                old(self)@ + 1
            } else {
                old(self)@ as int
            }),
    {
        let size = memory.size();
        if self.position >= size {
            return Err(MemoryFault::new(self.position));
        }
        if self.position + 1 >= size {
            return Err(MemoryFault::new(self.position + 1));
        }
        let first = memory.byte_at(self.position);
        let second = memory.byte_at(self.position + 1);
        self.position += 2;

        Ok(Instruction::new(first, second))
    }
}

impl traits::ProgramCounter for ProgramCounter {
    open spec fn position(&self) -> usize {
        self@
    }

    fn get_position(&self) -> (result: usize) {
        return self.position;
    }

    fn set_position(&mut self, new_position: usize) {
        self.position = new_position;
    }

    fn skip(&mut self) {
        self.position += 2;
    }

    fn go_back(&mut self) {
        self.position -= 2;
    }
}

} // verus!
