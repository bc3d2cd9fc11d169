//! The interfaces of the machine's parts, and the three that a frontend implements:
//! `Renderer`, `Keypad` and `Random`.
use vstd::prelude::*;
use crate::delay_timer::ticked;
use crate::memory::MemoryFault;
use crate::screen_memory::{blit, collides};
use crate::stack::{below_top, top};

verus! {

/// What the decoder offers of one instruction: its six fields, as bits.
pub trait Instruction: Copy {
    /// The two bytes of the instruction.
    spec fn bytes(&self) -> (u8, u8);

    /// The first nibble
    fn w(&self) -> (result: [bool; 4])
        ensures
            result@ == crate::instruction::nibble_bits((self.bytes().0 / 16) as nat),
    ;

    /// The second nibble. Used to look up one of the 16 registers (VX) from V0 through VF
    fn x(&self) -> (result: [bool; 4])
        ensures
            result@ == crate::instruction::nibble_bits((self.bytes().0 % 16) as nat),
    ;

    /// The third nibble. Also used to look up one of the 16 registers (VY) from V0 through VF
    fn y(&self) -> (result: [bool; 4])
        ensures
            result@ == crate::instruction::nibble_bits((self.bytes().1 / 16) as nat),
    ;

    /// The fourth nibble
    fn n(&self) -> (result: [bool; 4])
        ensures
            result@ == crate::instruction::nibble_bits((self.bytes().1 % 16) as nat),
    ;

    /// The second byte (third and fourth nibbles). An 8-bit immediate number
    fn nn(&self) -> (result: [bool; 8])
        ensures
            result@ == crate::instruction::byte_bits(self.bytes().1 as nat),
    ;

    /// The second, third and fourth nibbles. A 12-bit immediate memory address
    fn nnn(&self) -> (result: [bool; 12])
        ensures
            result@ == crate::instruction::nibble_bits((self.bytes().0 % 16) as nat)
                + crate::instruction::byte_bits(self.bytes().1 as nat),
    ;
}

/// The address of the next instruction to fetch.
pub trait ProgramCounter {
    /// The address that the counter holds.
    spec fn position(&self) -> usize;

    fn get_position(&self) -> (result: usize)
        ensures
            result == self.position(),
    ;

    fn set_position(&mut self, new_position: usize)
        ensures
            final(self).position() == new_position,
    ;

    /// Moves the counter over one instruction: two bytes on.
    fn skip(&mut self)
        requires
            old(self).position() + 2 <= usize::MAX,
        ensures
            final(self).position() == old(self).position() + 2,
    ;

    /// Moves the counter back over one instruction: two bytes back.
    fn go_back(&mut self)
        requires
            old(self).position() >= 2,
        ensures
            final(self).position() == old(self).position() - 2,
    ;
}

/// A stack of return addresses.
pub trait Stack {
    /// The addresses on the stack, the latest last.
    spec fn entries(&self) -> Seq<usize>;

    fn push(&mut self, value: usize)
        ensures
            final(self).entries() == old(self).entries().push(value),
    ;

    /// Takes the latest address off the stack; nothing, and no change, where the stack is
    /// empty.
    fn pop(&mut self) -> (result: Option<usize>)
        ensures
            result == top(old(self).entries()),
            final(self).entries() == below_top(old(self).entries()),
    ;

    fn clear(&mut self)
        ensures
            final(self).entries() == Seq::<usize>::empty(),
    ;
}

/// A byte that counts down to zero.
pub trait Timer {
    /// The value that the counter holds.
    spec fn value(&self) -> u8;

    fn get(&self) -> (result: u8)
        ensures
            result == self.value(),
    ;

    fn set(&mut self, value: u8)
        ensures
            final(self).value() == value,
    ;

    /// One tick: counts down by one where the value is above zero. A timer that fails
    /// keeps its value.
    fn update(&mut self) -> (result: Result<(), String>)
        ensures
            result is Ok ==> final(self).value() == ticked(old(self).value()),
            result is Err ==> final(self).value() == old(self).value(),
    ;
}

/// A memory of bytes with checked access.
pub trait Memory {
    /// The bytes of the memory.
    spec fn bytes(&self) -> Seq<u8>;

    /// Gives the memory `size` bytes, all zero.
    fn set_size(&mut self, size: usize)
        ensures
            final(self).bytes() == Seq::new(size as nat, |i: int| 0u8),
    ;

    /// Writes one byte; fails, and changes nothing, where `location` is not in the memory.
    fn set(&mut self, location: usize, value: u8) -> (result: Result<(), MemoryFault>)
        ensures
            location < old(self).bytes().len() ==> result is Ok && final(self).bytes() == old(
                self,
            ).bytes().update(location as int, value),
            location >= old(self).bytes().len() ==> final(self).bytes() == old(self).bytes() && (
            result matches Err(fault) && fault.spec_location() == location),
    ;

    /// Reads one byte; fails where `location` is not in the memory.
    fn get(&self, location: usize) -> (result: Result<u8, MemoryFault>)
        ensures
            location < self.bytes().len() ==> result == Ok::<u8, MemoryFault>(
                self.bytes()[location as int],
            ),
            location >= self.bytes().len() ==> (result matches Err(fault) && fault.spec_location()
                == location),
    ;

    /// The bytes from `location` to the end; fails where `location` lies behind the end.
    fn get_iter(&self, location: usize) -> (result: Result<&[u8], MemoryFault>)
        ensures
            location <= self.bytes().len() ==> (result matches Ok(rest) && rest@
                == self.bytes().subrange(location as int, self.bytes().len() as int)),
            location > self.bytes().len() ==> (result matches Err(fault) && fault.spec_location()
                == location),
    ;

    /// A copy of all the bytes.
    fn dump(&self) -> (result: Vec<u8>)
        ensures
            result@ == self.bytes(),
    ;
}

/// The state of the sixteen keys, as a frontend reports it.
pub trait Keypad {
    /// Which of the sixteen keys are down, key 0 first.
    fn state(&self) -> [bool; 16];

    /// Whether the key `key_index` is down.
    fn key_state(&self, key_index: usize) -> bool;
}

/// A source of random bytes.
pub trait Random {
    /// The next random byte.
    fn value(&mut self) -> u8;
}

/// A frame buffer that sprites are drawn on.
pub trait ScreenMemory {
    /// The cells of the buffer, row by row from the top.
    spec fn grid(&self) -> Seq<Seq<bool>>;

    /// Unsets every cell; the size stays.
    fn clear(&mut self)
        ensures
            final(self).grid().len() == old(self).grid().len(),
            forall|row: int|
                0 <= row < old(self).grid().len() ==> (#[trigger] final(self).grid()[row])
                    == Seq::new(old(self).grid()[row].len(), |column: int| false),
    ;

    /// Draws the first `count` bytes of `memory` as the rows of a sprite, its top left cell
    /// at column `x` and row `y`, both wrapped to the buffer's size. A set bit flips its
    /// cell; what would lie right of the last column or below the last row is not drawn.
    /// Returns whether any cell was erased. Where `memory` has fewer bytes than `count`,
    /// the sprite ends with the last of them; a buffer without cells stays as it is.
    fn display(&mut self, x: u8, y: u8, memory: &[u8], count: u8) -> (erased: bool)
        ensures
            final(self).grid() == blit(old(self).grid(), x, y, memory@, count as nat),
            erased == collides(old(self).grid(), x, y, memory@, count as nat),
    ;
}

/// What shows the frame buffer.
pub trait Renderer {
    /// Shows the rows of the frame buffer, the top row first.
    fn render(&mut self, memory: std::slice::Iter<Vec<bool>>) -> Result<(), &'static str>;
}

/// A session of the machine: it is loaded with a program and then goes on cycle by
/// cycle.
pub trait Interpreter<T> {
    /// Puts the machine back to its start, copies `program` into the memory at
    /// `start_position` and sets the program counter there.
    fn load(&mut self, program: Vec<u8>, start_position: usize) -> Result<(), MemoryFault>;

    /// One cycle: fetches and carries out one instruction, ticks the timers and shows the
    /// frame buffer.
    fn update(&mut self) -> Result<T, String>;

    fn clear_screen(&mut self);

    fn dump_memory(&self) -> Vec<u8>;
}

} // verus!
