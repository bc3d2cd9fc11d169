use vstd::prelude::*;
use crate::memory::{block_fault, overwritten, Memory, MemoryFault};

verus! {

/// The number of bytes that one glyph takes: one per row.
pub const GLYPH_SIZE: usize = 5;

/// The bytes of the sixteen glyphs for the hexadecimal digits, 0 first, five bytes each.
pub open spec fn standard_glyphs() -> Seq<u8> {
    seq![
        0xF0u8, 0x90u8, 0x90u8, 0x90u8, 0xF0u8,
        0x20u8, 0x60u8, 0x20u8, 0x20u8, 0x70u8,
        0xF0u8, 0x10u8, 0xF0u8, 0x80u8, 0xF0u8,
        0xF0u8, 0x10u8, 0xF0u8, 0x10u8, 0xF0u8,
        0x90u8, 0x90u8, 0xF0u8, 0x10u8, 0x10u8,
        0xF0u8, 0x80u8, 0xF0u8, 0x10u8, 0xF0u8,
        0xF0u8, 0x80u8, 0xF0u8, 0x90u8, 0xF0u8,
        0xF0u8, 0x10u8, 0x20u8, 0x40u8, 0x40u8,
        0xF0u8, 0x90u8, 0xF0u8, 0x90u8, 0xF0u8,
        0xF0u8, 0x90u8, 0xF0u8, 0x10u8, 0xF0u8,
        0xF0u8, 0x90u8, 0xF0u8, 0x90u8, 0x90u8,
        0xE0u8, 0x90u8, 0xE0u8, 0x90u8, 0xE0u8,
        0xF0u8, 0x80u8, 0x80u8, 0x80u8, 0xF0u8,
        0xE0u8, 0x90u8, 0x90u8, 0x90u8, 0xE0u8,
        0xF0u8, 0x80u8, 0xF0u8, 0x80u8, 0xF0u8,
        0xF0u8, 0x80u8, 0xF0u8, 0x80u8, 0x80u8,
    ]
}

/// The glyphs of the sixteen hexadecimal digits, five rows each.
#[derive(Clone, Copy)]
pub struct Font {
    contents: [u8; 80],
}

impl View for Font {
    type V = Seq<u8>;

    closed spec fn view(&self) -> Seq<u8> {
        self.contents@
    }
}

impl Font {
    /// A font has eighty bytes: sixteen glyphs of five.
    pub proof fn lemma_len(&self)
        ensures
            self@.len() == 80,
    {
    }

    pub fn new() -> (result: Font)
        ensures
            result@ == standard_glyphs(),
    {
        let result = Font {
            contents: [
                0xF0, 0x90, 0x90, 0x90, 0xF0,  // 0
                0x20, 0x60, 0x20, 0x20, 0x70,  // 1
                0xF0, 0x10, 0xF0, 0x80, 0xF0,  // 2
                0xF0, 0x10, 0xF0, 0x10, 0xF0,  // 3
                0x90, 0x90, 0xF0, 0x10, 0x10,  // 4
                0xF0, 0x80, 0xF0, 0x10, 0xF0,  // 5
                0xF0, 0x80, 0xF0, 0x90, 0xF0,  // 6
                0xF0, 0x10, 0x20, 0x40, 0x40,  // 7
                0xF0, 0x90, 0xF0, 0x90, 0xF0,  // 8
                0xF0, 0x90, 0xF0, 0x10, 0xF0,  // 9
                0xF0, 0x90, 0xF0, 0x90, 0x90,  // A
                0xE0, 0x90, 0xE0, 0x90, 0xE0,  // B
                0xF0, 0x80, 0x80, 0x80, 0xF0,  // C
                0xE0, 0x90, 0x90, 0x90, 0xE0,  // D
                0xF0, 0x80, 0xF0, 0x80, 0xF0,  // E
                0xF0, 0x80, 0xF0, 0x80, 0x80,  // F
            ],
        };
        assert(result@ =~= standard_glyphs());
        result
    }

    /// Copies the glyphs into `memory` from `start` on. Fails, and changes nothing, where
    /// they do not fit.
    pub fn apply(&self, memory: &mut Memory, start: usize) -> (result: Result<(), MemoryFault>)
        ensures
            self@.len() == 80,
            start + 80 <= old(memory)@.len() ==> result is Ok && final(memory)@ == overwritten(
                old(memory)@,
                start as int,
                self@,
            ),
            start + 80 > old(memory)@.len() ==> final(memory)@ == old(memory)@ && (
            result matches Err(fault) && fault.spec_location() == block_fault(
                old(memory)@.len(),
                start,
            )),
    {
        memory.set_block(start, self.contents.as_slice())
    }
}

} // verus!
