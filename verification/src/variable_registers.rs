use vstd::prelude::*;
use crate::out_of_bounds_error::OutOfBoundsError;

verus! {

/// What reading register `index` gives: its value, or nothing where there is no such
/// register.
pub open spec fn register_read(registers: Seq<u8>, index: u8) -> Option<u8> {
    if index < registers.len() {
        Some(registers[index as int])
    } else {
        None
    }
}

/// The registers after `value` was written to register `index`, or nothing where there is
/// no such register.
pub open spec fn register_written(registers: Seq<u8>, index: u8, value: u8) -> Option<Seq<u8>> {
    if index < registers.len() {
        Some(registers.update(index as int, value))
    } else {
        None
    }
}

/// What was written to one of sixteen registers is read from it again, and the other
/// registers are read as before. A register number from sixteen on is neither read nor
/// written.
pub proof fn lemma_register_round_trip(registers: Seq<u8>, index: u8, value: u8, other: u8)
    requires
        registers.len() == 16,
    ensures
        index < 16 ==> (register_written(registers, index, value) matches Some(after)
            && register_read(after, index) == Some(value) && (other != index ==> register_read(
            after,
            other,
        ) == register_read(registers, other))),
        index >= 16 ==> register_read(registers, index) is None && register_written(
            registers,
            index,
            value,
        ) is None,
{
}

/// The sixteen byte registers V0 to VF. VF doubles as the flag register.
pub struct VariableRegisters {
    value: [u8; 16],
}

impl View for VariableRegisters {
    type V = Seq<u8>;

    closed spec fn view(&self) -> Seq<u8> {
        self.value@
    }
}

impl VariableRegisters {
    /// There are always sixteen registers.
    pub proof fn lemma_len(&self)
        ensures
            self@.len() == 16,
    {
    }

    pub fn new() -> (result: VariableRegisters)
        ensures
            result@ == Seq::new(16, |i: int| 0u8),
    {
        let result = VariableRegisters { value: [0;16] };
        assert(result@ =~= Seq::new(16, |i: int| 0u8));
        result
    }

    pub fn reset(&mut self)
        ensures
            final(self)@ == Seq::new(16, |i: int| 0u8),
    {
        self.value = [0;16];
        assert(self@ =~= Seq::new(16, |i: int| 0u8));
    }

    /// The value of register `index`, or nothing where there is no such register.
    pub fn get(&self, index: u8) -> (result: Option<u8>)
        ensures
            self@.len() == 16,
            result == register_read(self@, index),
    {
        if (index as usize) < 16 {
            Some(self.value[index as usize])
        } else {
            None
        }
    }

    /// Writes `value` to register `index`; fails, and changes nothing, where there is no
    /// such register.
    pub fn set(&mut self, index: u8, value: u8) -> (result: Result<(), OutOfBoundsError>)
        ensures
            final(self)@.len() == 16,
            match register_written(old(self)@, index, value) {
                Some(after) => result is Ok && final(self)@ == after,
                None => final(self)@ == old(self)@ && (result matches Err(error)
                    && error.spec_index() == index),
            },
    {
        if index as usize >= 16 {
            Err(OutOfBoundsError::new(index))
        } else {
            self.value[index as usize] = value;
            Ok(())
        }
    }

    /// All sixteen values, V0 first.
    pub fn get_all(&self) -> (result: [u8; 16])
        ensures
            result@ == self@,
    {
        self.value
    }
}

} // verus!
