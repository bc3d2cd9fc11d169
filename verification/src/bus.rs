//! The parts of one machine, borrowed together.
use vstd::prelude::*;
use crate::cpu::{outcome, ExecuteResult};
use crate::delay_timer::DelayTimer;
use crate::instruction::Instruction;
use crate::machine::{machine_of, operation, Machine, Polled};
use crate::memory::Memory;
use crate::program_counter::ProgramCounter;
use crate::screen_memory::ScreenMemory;
use crate::sound_timer::SoundTimer;
use crate::stack::Stack;
use crate::traits;
use crate::variable_registers::VariableRegisters;

verus! {

/// The parts of a machine, lent out together for as long as instructions are carried out
/// on them.
pub struct Bus<'a, Keypad: traits::Keypad, Random: traits::Random> {
    pub program_counter: &'a mut ProgramCounter,
    pub stack: &'a mut Stack,
    pub memory: &'a mut Memory,
    pub screen_memory: &'a mut ScreenMemory,
    pub variable_registers: &'a mut VariableRegisters,
    pub keypad: &'a Keypad,
    pub index_register: &'a mut usize,
    pub delay_timer: &'a mut DelayTimer,
    pub sound_timer: &'a mut SoundTimer,
    pub random: &'a mut Random,
}

impl<'a, Keypad: traits::Keypad, Random: traits::Random> Bus<'a, Keypad, Random> {
    /// The machine that the parts make up.
    pub open spec fn machine(&self) -> Machine {
        machine_of(
            *self.program_counter,
            *self.stack,
            *self.memory,
            *self.screen_memory,
            *self.variable_registers,
            *self.index_register,
            *self.delay_timer,
            *self.sound_timer,
        )
    }

    /// Carries out one instruction on the parts, or only reads it, as `cpu::execute` does.
    /// The parts stay lent as they were.
    pub fn execute<'b>(
        &'b mut self,
        apply_instruction: bool,
        instruction: Instruction,
        font_start: usize,
    ) -> (result: ExecuteResult)
        ensures
            exists|polled: Polled|
                polled.keys.len() == 16 && #[trigger] outcome(
                    result,
                    final(self).machine(),
                    apply_instruction,
                    instruction,
                    old(self).machine(),
                    font_start,
                    polled,
                ),
            result matches Ok(state) ==> state.instruction_disassembly@.len() > 0,
            !apply_instruction ==> final(self).machine() == old(self).machine(),
            !apply_instruction ==> (result is Ok <==> !(operation(instruction) is Unsupported)),
            *final(final(self).program_counter) == *final(old(self).program_counter),
            *final(final(self).stack) == *final(old(self).stack),
            *final(final(self).memory) == *final(old(self).memory),
            *final(final(self).screen_memory) == *final(old(self).screen_memory),
            *final(final(self).variable_registers) == *final(old(self).variable_registers),
            *final(final(self).index_register) == *final(old(self).index_register),
            *final(final(self).delay_timer) == *final(old(self).delay_timer),
            *final(final(self).sound_timer) == *final(old(self).sound_timer),
            *final(final(self).random) == *final(old(self).random),
    {
        let ghost before = self.machine();
        let result = crate::cpu::execute(
            apply_instruction,
            instruction,
            self.program_counter,
            self.stack,
            self.memory,
            self.screen_memory,
            self.variable_registers,
            self.keypad,
            self.index_register,
            self.delay_timer,
            self.sound_timer,
            self.random,
            font_start,
        );
        proof {
            let polled = choose|polled: Polled|
                polled.keys.len() == 16 && #[trigger] outcome(
                    result,
                    self.machine(),
                    apply_instruction,
                    instruction,
                    before,
                    font_start,
                    polled,
                );
            assert(polled.keys.len() == 16 && outcome(
                result,
                self.machine(),
                apply_instruction,
                instruction,
                before,
                font_start,
                polled,
            ));
        }
        result
    }
}

} // verus!
