//! The memory of the machine, with checked access.
use vstd::prelude::*;
use vstd::string::StringExecFns;
use crate::text::{append_decimal, decimal_text};
use crate::traits;

verus! {

/// An address that does not lie in the memory.
#[derive(Debug, Clone, Copy)]
pub struct MemoryFault {
    location: usize,
}

impl MemoryFault {
    /// The address that was asked for.
    pub closed spec fn spec_location(&self) -> usize {
        self.location
    }

    pub fn new(location: usize) -> (result: MemoryFault)
        ensures
            result.spec_location() == location,
    {
        MemoryFault { location }
    }

    /// The address that was asked for.
    pub fn location(&self) -> (result: usize)
        ensures
            result == self.spec_location(),
    {
        self.location
    }

    /// The fault as a line of text.
    pub open spec fn text(&self) -> Seq<char> {
        "Memory fault at "@ + decimal_text(self.spec_location() as nat)
    }

    /// The fault as a line of text.
    pub fn to_string(&self) -> (result: String)
        ensures
            result@ == self.text(),
    {
        let mut result = String::from_str("Memory fault at ");
        append_decimal(&mut result, self.location);
        result
    }
}

/// The machine's memory: a row of bytes of a fixed size.
pub struct Memory {
    contents: Vec<u8>,
}

/// One byte of a memory together with its address.
#[derive(Debug)]
pub struct PartialSnapshot {
    pub location: usize,
    pub value: u8,
}

impl View for Memory {
    type V = Seq<u8>;

    closed spec fn view(&self) -> Seq<u8> {
        self.contents@
    }
}

/// Whether `entries` are the bytes of `bytes` from `start` to `end`, both included, in
/// their order and each with its address.
pub open spec fn is_snapshot(
    entries: Seq<PartialSnapshot>,
    bytes: Seq<u8>,
    start: int,
    end: int,
) -> bool {
    &&& entries.len() == end - start + 1
    &&& forall|k: int|
        0 <= k < entries.len() ==> (#[trigger] entries[k]).location == start + k && entries[k].value
            == bytes[start + k]
}

/// The address that a fault names when a block from `start` on does not lie in a memory
/// of `size` bytes: the first address behind the memory that was asked for.
pub open spec fn block_fault(size: nat, start: usize) -> nat {
    if start < size {
        size
    } else {
        start as nat
    }
}

/// The memory `bytes` after `block` was written over it from `start` on.
pub open spec fn overwritten(bytes: Seq<u8>, start: int, block: Seq<u8>) -> Seq<u8> {
    Seq::new(
        bytes.len(),
        |i: int|
            if start <= i < start + block.len() {
                block[i - start]
            } else {
                bytes[i]
            },
    )
}

/// A memory of `size` bytes that are all zero.
pub open spec fn zeroed(size: nat) -> Seq<u8> {
    Seq::new(size, |i: int| 0u8)
}

impl Memory {
    pub fn new(size: usize) -> (result: Memory)
        ensures
            result@ == zeroed(size as nat),
    {
        let result = Memory { contents: vec![0; size] };
        assert(result@ =~= zeroed(size as nat));
        result
    }

    pub fn new_chip8() -> (result: Memory)
        ensures
            result@ == zeroed(4096),
    {
        Memory::new(4096)
    }

    /// Sets every byte to zero; the size stays.
    pub fn clear(&mut self)
        ensures
            final(self)@ == zeroed(old(self)@.len()),
    {
        self.contents = vec![0; self.contents.len()];
        assert(self@ =~= zeroed(old(self)@.len()));
    }

    /// The number of bytes.
    pub fn size(&self) -> (result: usize)
        ensures
            result == self@.len(),
    {
        self.contents.len()
    }

    /// The byte at an address that lies in the memory.
    pub(crate) fn byte_at(&self, location: usize) -> (result: u8)
        requires
            location < self@.len(),
        ensures
            result == self@[location as int],
    {
        self.contents[location]
    }

    /// The bytes from `start` on, `count` of them. Fails where they do not all lie in the
    /// memory; the fault names the first address behind the memory that was asked for.
    pub fn block(&self, start: usize, count: usize) -> (result: Result<&[u8], MemoryFault>)
        ensures
            start + count <= self@.len() ==> (result matches Ok(bytes) && bytes@
                == self@.subrange(start as int, start + count)),
            start + count > self@.len() ==> (result matches Err(fault) && fault.spec_location()
                == block_fault(self@.len(), start)),
    {
        let size = self.contents.len();
        if start > size {
            return Err(MemoryFault::new(start));
        }
        if count > size - start {
            return Err(MemoryFault::new(if start < size { size } else { start }));
        }
        Ok(vstd::slice::slice_subrange(self.contents.as_slice(), start, start + count))
    }

    /// Writes `block` over the bytes from `start` on. Fails, and changes nothing, where the
    /// block does not fit in the memory; the fault names the first address behind the
    /// memory that was asked for.
    pub fn set_block(&mut self, start: usize, block: &[u8]) -> (result: Result<(), MemoryFault>)
        ensures
            start + block@.len() <= old(self)@.len() ==> result is Ok && final(self)@
                == overwritten(old(self)@, start as int, block@),
            start + block@.len() > old(self)@.len() ==> final(self)@ == old(self)@ && (
            result matches Err(fault) && fault.spec_location() == block_fault(
                old(self)@.len(),
                start,
            )),
    {
        let size = self.contents.len();
        if start > size {
            return Err(MemoryFault::new(start));
        }
        if block.len() > size - start {
            return Err(MemoryFault::new(if start < size { size } else { start }));
        }
        let mut index: usize = 0;
        while index < block.len()
            invariant
                index <= block@.len(),
                start + block@.len() <= size,
                self.contents@.len() == size,
                size == old(self)@.len(),
                self@ == overwritten(old(self)@, start as int, block@.subrange(0, index as int)),
            decreases block@.len() - index,
        {
            self.contents[start + index] = block[index];
            index += 1;
            assert(self@ =~= overwritten(
                old(self)@,
                start as int,
                block@.subrange(0, index as int),
            ));
        }
        assert(block@.subrange(0, index as int) =~= block@);
        Ok(())
    }

    /// The bytes from `start_location` to `end_location`, both included, each with its
    /// address. Nothing where `start_location` lies behind `end_location`. Fails where
    /// `end_location` does not lie in the memory.
    pub fn snapshot(&self, start_location: usize, end_location: usize) -> (result: Result<Vec<PartialSnapshot>, MemoryFault>)
        ensures
            start_location > end_location ==> (result matches Ok(entries) && entries@.len() == 0),
            start_location <= end_location && end_location < self@.len() ==> (result matches Ok(
                entries,
            ) && is_snapshot(entries@, self@, start_location as int, end_location as int)),
            start_location <= end_location && end_location >= self@.len() ==> (
            result matches Err(fault) && fault.spec_location() == end_location),
    {
        let mut result: Vec<PartialSnapshot> = vec![];
        if start_location > end_location {
            return Ok(result);
        }
        if end_location >= self.contents.len() {
            return Err(MemoryFault::new(end_location));
        }
        let mut location = start_location;
        while location <= end_location
            invariant
                start_location <= location <= end_location + 1,
                end_location < self@.len(),
                end_location < usize::MAX,
                is_snapshot(result@, self@, start_location as int, location - 1),
            decreases end_location + 1 - location,
        {
            result.push(PartialSnapshot { location: location, value: self.contents[location] });
            location += 1;
        }

        Ok(result)
    }
}

impl traits::Memory for Memory {
    open spec fn bytes(&self) -> Seq<u8> {
        self@
    }

    fn set_size(&mut self, size: usize) {
        self.contents = vec![0; size];
        assert(self@ =~= Seq::new(size as nat, |i: int| 0u8));
    }

    fn set(&mut self, location: usize, value: u8) -> (result: Result<(), MemoryFault>) {
        if location < self.contents.len() {
            self.contents[location] = value;
            Ok(())
        } else {
            Err(MemoryFault::new(location))
        }
    }

    fn get(&self, location: usize) -> (result: Result<u8, MemoryFault>) {
        if location < self.contents.len() {
            Ok(self.contents[location])
        } else {
            Err(MemoryFault::new(location))
        }
    }

    fn get_iter(&self, location: usize) -> (result: Result<&[u8], MemoryFault>) {
        if location <= self.contents.len() {
            Ok(
                vstd::slice::slice_subrange(
                    self.contents.as_slice(),
                    location,
                    self.contents.len(),
                ),
            )
        } else {
            Err(MemoryFault::new(location))
        }
    }

    fn dump(&self) -> (result: Vec<u8>) {
        self.contents.clone()
    }
}

} // verus!
