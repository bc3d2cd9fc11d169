//! The instructions of the machine, one function each, and `execute`, which picks the
//! function by the bytes of the instruction.
//!
//! Every function takes `apply_instruction`. Where it is false the instruction is only
//! read: the function gives back the text that describes the instruction and changes
//! nothing. An instruction that fails changes nothing either.
use vstd::prelude::*;
use vstd::string::StringExecFns;
use crate::delay_timer::DelayTimer;
use crate::keypad::{first_key_down, lemma_first_key_down, lemma_first_key_down_is};
use crate::instruction::{
    lemma_address_from_fields,
    lemma_byte_bits_value,
    lemma_nibble_bits_value,
    Instruction,
    InstructionError,
};
use crate::machine::{
    lemma_operation_text_not_empty,
    machine_of,
    nothing_polled,
    operation,
    perform,
    Machine,
    Polled,
    cleared,
    decimal_digits,
    flag,
    operation_text,
    registers_loaded,
    with_result_and_flag,
    wrapped_difference,
    wrapped_sum,
    Operation,
    FLAG_REGISTER,
};
use crate::math::{Count16, Count8};
use crate::memory::{overwritten, Memory};
use crate::program_counter::ProgramCounter;
use crate::screen_memory::{blit, collides, ScreenMemory};
use crate::sound_timer::SoundTimer;
use crate::stack::Stack;
use crate::text::{append_decimal, append_hex_byte, append_hex_word};
use crate::traits;
use crate::variable_registers::VariableRegisters;

verus! {

/// What carrying out, or only reading, an instruction gives back.
#[derive(Debug)]
pub struct ExecutionState {
    /// The instruction in words.
    pub instruction_disassembly: String,
}

pub type ExecuteResult = Result<ExecutionState, InstructionError>;

/// Whether `result` is the text that describes `operation`.
pub open spec fn succeeded(
    result: ExecuteResult,
    operation: Operation,
    instruction: Instruction,
) -> bool {
    result matches Ok(state) && state.instruction_disassembly@ == operation_text(
        operation,
        instruction,
    )
}

/// Whether `result` says that the machine's state did not allow `instruction`.
pub open spec fn failed(result: ExecuteResult, instruction: Instruction) -> bool {
    result matches Err(InstructionError::InstructionExecuteError(refused)) && refused
        == instruction
}

/// Whether `result` says that `instruction` is not supported.
pub open spec fn unsupported(result: ExecuteResult, instruction: Instruction) -> bool {
    result matches Err(InstructionError::UnsupportedInstructionError(refused)) && refused
        == instruction
}

fn class_of(instruction: Instruction) -> (class: u8)
    ensures
        class == instruction.class(),
        class < 16,
{
    proof {
        lemma_nibble_bits_value(instruction.class());
    }
    instruction.w().count8()
}

fn register_x(instruction: Instruction) -> (x: u8)
    ensures
        x == instruction.register_x(),
        x < 16,
{
    proof {
        lemma_nibble_bits_value(instruction.register_x());
    }
    instruction.x().count8()
}

fn register_y(instruction: Instruction) -> (y: u8)
    ensures
        y == instruction.register_y(),
        y < 16,
{
    proof {
        lemma_nibble_bits_value(instruction.register_y());
    }
    instruction.y().count8()
}

fn low_nibble(instruction: Instruction) -> (low: u8)
    ensures
        low == instruction.low_nibble(),
        low < 16,
{
    proof {
        lemma_nibble_bits_value(instruction.low_nibble());
    }
    instruction.n().count8()
}

fn immediate(instruction: Instruction) -> (value: u8)
    ensures
        value == instruction.immediate(),
{
    proof {
        lemma_byte_bits_value(instruction.immediate());
    }
    instruction.nn().count8()
}

fn address(instruction: Instruction) -> (value: u16)
    ensures
        value == instruction.address(),
        value < 4096,
{
    proof {
        lemma_address_from_fields(instruction);
    }
    instruction.nnn().count16()
}

fn done(text: String) -> (result: ExecuteResult)
    ensures
        result matches Ok(state) && state.instruction_disassembly@ == text@,
{
    Ok(ExecutionState { instruction_disassembly: text })
}

/// What a skip makes of the counter: two bytes on where the instruction is applied and
/// the skip is taken. Where the counter cannot go on, the instruction fails.
pub open spec fn skip_outcome(
    result: ExecuteResult,
    after: usize,
    operation: Operation,
    instruction: Instruction,
    before: usize,
    taken: bool,
) -> bool {
    if taken && before + 2 > usize::MAX {
        failed(result, instruction) && after == before
    } else {
        succeeded(result, operation, instruction) && after == if taken {
            (before + 2) as usize
        } else {
            before
        }
    }
}

fn skip_when(
    taken: bool,
    instruction: Instruction,
    program_counter: &mut ProgramCounter,
    text: String,
) -> (result: ExecuteResult)
    ensures
        if taken && old(program_counter)@ + 2 > usize::MAX {
            failed(result, instruction) && final(program_counter)@ == old(program_counter)@
        } else {
            (result matches Ok(state) && state.instruction_disassembly@ == text@) && final(program_counter)@ == if taken {
                (old(program_counter)@ + 2) as usize
            } else {
                old(program_counter)@
            }
        },
{
    if taken {
        if traits::ProgramCounter::get_position(program_counter) > usize::MAX - 2 {
            return Err(InstructionError::InstructionExecuteError(instruction));
        }
        traits::ProgramCounter::skip(program_counter);
    }
    done(text)
}

/// Skips the next instruction where register X holds the immediate byte.
pub fn skip_if_equal_value(
    apply_instruction: bool,
    instruction: Instruction,
    variable_registers: &VariableRegisters,
    program_counter: &mut ProgramCounter,
) -> (result: ExecuteResult)
    ensures
        skip_outcome(
            result,
            final(program_counter)@,
            Operation::SkipIfEqualValue,
            instruction,
            old(program_counter)@,
            apply_instruction && variable_registers@[instruction.register_x() as int]
                == instruction.immediate(),
        ),
{
    let x = register_x(instruction);
    let value = immediate(instruction);

    let mut text = String::from_str("skip if ");
    append_hex_byte(&mut text, value);
    text.append(" == V");
    append_decimal(&mut text, x as usize);

    let mut taken = false;
    if apply_instruction {
        match variable_registers.get(x) {
            Some(register_value) => {
                taken = value == register_value;
            },
            None => return Err(InstructionError::InstructionExecuteError(instruction)),
        }
    }
    skip_when(taken, instruction, program_counter, text)
}

/// Skips the next instruction where register X does not hold the immediate byte.
pub fn skip_if_not_equal_to_value(
    apply_instruction: bool,
    instruction: Instruction,
    variable_registers: &VariableRegisters,
    program_counter: &mut ProgramCounter,
) -> (result: ExecuteResult)
    ensures
        skip_outcome(
            result,
            final(program_counter)@,
            Operation::SkipIfNotEqualValue,
            instruction,
            old(program_counter)@,
            apply_instruction && variable_registers@[instruction.register_x() as int]
                != instruction.immediate(),
        ),
{
    let x = register_x(instruction);
    let value = immediate(instruction);

    let mut text = String::from_str("skip if ");
    append_hex_byte(&mut text, value);
    text.append(" != V");
    append_decimal(&mut text, x as usize);

    let mut taken = false;
    if apply_instruction {
        match variable_registers.get(x) {
            Some(register_value) => {
                taken = value != register_value;
            },
            None => return Err(InstructionError::InstructionExecuteError(instruction)),
        }
    }
    skip_when(taken, instruction, program_counter, text)
}

/// Skips the next instruction where registers X and Y hold the same.
pub fn skip_if_equal(
    apply_instruction: bool,
    instruction: Instruction,
    variable_registers: &VariableRegisters,
    program_counter: &mut ProgramCounter,
) -> (result: ExecuteResult)
    ensures
        skip_outcome(
            result,
            final(program_counter)@,
            Operation::SkipIfEqual,
            instruction,
            old(program_counter)@,
            apply_instruction && variable_registers@[instruction.register_x() as int]
                == variable_registers@[instruction.register_y() as int],
        ),
{
    let x = register_x(instruction);
    let y = register_y(instruction);

    let mut text = String::from_str("skip if V");
    append_decimal(&mut text, x as usize);
    text.append(" == V");
    append_decimal(&mut text, y as usize);

    let mut taken = false;
    if apply_instruction {
        match variable_registers.get(x) {
            Some(x_value) => {
                match variable_registers.get(y) {
                    Some(y_value) => {
                        taken = x_value == y_value;
                    },
                    None => return Err(InstructionError::InstructionExecuteError(instruction)),
                }
            },
            None => return Err(InstructionError::InstructionExecuteError(instruction)),
        }
    }
    skip_when(taken, instruction, program_counter, text)
}

/// Skips the next instruction where registers X and Y do not hold the same.
pub fn skip_if_not_equal(
    apply_instruction: bool,
    instruction: Instruction,
    variable_registers: &VariableRegisters,
    program_counter: &mut ProgramCounter,
) -> (result: ExecuteResult)
    ensures
        skip_outcome(
            result,
            final(program_counter)@,
            Operation::SkipIfNotEqual,
            instruction,
            old(program_counter)@,
            apply_instruction && variable_registers@[instruction.register_x() as int]
                != variable_registers@[instruction.register_y() as int],
        ),
{
    let x = register_x(instruction);
    let y = register_y(instruction);

    let mut text = String::from_str("skip if V");
    append_decimal(&mut text, x as usize);
    text.append(" != V");
    append_decimal(&mut text, y as usize);

    let mut taken = false;
    if apply_instruction {
        match variable_registers.get(x) {
            Some(x_value) => {
                match variable_registers.get(y) {
                    Some(y_value) => {
                        taken = x_value != y_value;
                    },
                    None => return Err(InstructionError::InstructionExecuteError(instruction)),
                }
            },
            None => return Err(InstructionError::InstructionExecuteError(instruction)),
        }
    }
    skip_when(taken, instruction, program_counter, text)
}

/// Unsets every cell of the frame buffer.
pub fn clear_screen(apply_instruction: bool, screen_memory: &mut ScreenMemory) -> (result:
    ExecuteResult)
    ensures
        result matches Ok(state) && state.instruction_disassembly@ == "clear screen"@,
        final(screen_memory)@ == if apply_instruction {
            cleared(old(screen_memory)@)
        } else {
            old(screen_memory)@
        },
{
    if apply_instruction {
        traits::ScreenMemory::clear(screen_memory);
        assert(screen_memory@ =~= cleared(old(screen_memory)@));
    }
    done(String::from_str("clear screen"))
}

/// Pushes the location after the call onto the stack and sets the program counter to the
/// address of the instruction.
pub fn push_stack(
    apply_instruction: bool,
    instruction: Instruction,
    stack: &mut Stack,
    program_counter: &mut ProgramCounter,
) -> (result: ExecuteResult)
    ensures
        succeeded(result, Operation::Call, instruction),
        final(stack)@ == if apply_instruction {
            old(stack)@.push(old(program_counter)@)
        } else {
            old(stack)@
        },
        final(program_counter)@ == if apply_instruction {
            instruction.address() as usize
        } else {
            old(program_counter)@
        },
{
    let new_position = address(instruction);

    if apply_instruction {
        traits::Stack::push(stack, traits::ProgramCounter::get_position(program_counter));
        traits::ProgramCounter::set_position(program_counter, new_position as usize);
    }
    let mut text = String::from_str("push stack and jump to ");
    append_hex_word(&mut text, new_position);
    done(text)
}

/// Sets the program counter to the location on the top of the stack and removes it from
/// the stack. Fails, and changes nothing, where the stack is empty.
pub fn pop_stack(
    apply_instruction: bool,
    instruction: Instruction,
    stack: &mut Stack,
    program_counter: &mut ProgramCounter,
) -> (result: ExecuteResult)
    ensures
        if apply_instruction && old(stack)@.len() == 0 {
            failed(result, instruction) && final(stack)@ == old(stack)@ && final(program_counter)@ == old(program_counter)@
        } else {
            succeeded(result, Operation::Return, instruction) && final(stack)@
                == if apply_instruction {
                old(stack)@.drop_last()
            } else {
                old(stack)@
            } && final(program_counter)@ == if apply_instruction {
                old(stack)@.last()
            } else {
                old(program_counter)@
            }
        },
{
    if apply_instruction {
        let result = traits::Stack::pop(stack);
        match result {
            Some(value) => {
                traits::ProgramCounter::set_position(program_counter, value);
            },
            None => return Err(InstructionError::InstructionExecuteError(instruction)),
        }
    }
    done(String::from_str("pop stack"))
}

/// Sets the program counter to the address of the instruction.
pub fn jump(
    apply_instruction: bool,
    instruction: Instruction,
    program_counter: &mut ProgramCounter,
) -> (result: ExecuteResult)
    ensures
        succeeded(result, Operation::Jump, instruction),
        final(program_counter)@ == if apply_instruction {
            instruction.address() as usize
        } else {
            old(program_counter)@
        },
{
    let nnn = address(instruction);
    if apply_instruction {
        traits::ProgramCounter::set_position(program_counter, nnn as usize);
    }
    let mut text = String::from_str("jump to ");
    append_hex_word(&mut text, nnn);
    done(text)
}

/// What register X holds.
pub open spec fn vx(instruction: Instruction, registers: Seq<u8>) -> u8 {
    registers[instruction.register_x() as int]
}

/// What register Y holds.
pub open spec fn vy(instruction: Instruction, registers: Seq<u8>) -> u8 {
    registers[instruction.register_y() as int]
}

/// The registers after `value` went to register X.
pub open spec fn with_x(instruction: Instruction, registers: Seq<u8>, value: u8) -> Seq<u8> {
    registers.update(instruction.register_x() as int, value)
}

/// The registers after `value` went to register X and then `flag` to VF.
pub open spec fn with_x_and_flag(
    instruction: Instruction,
    registers: Seq<u8>,
    value: u8,
    flag: u8,
) -> Seq<u8> {
    with_result_and_flag(registers, instruction.register_x() as int, value, flag)
}

fn read_register(variable_registers: &VariableRegisters, index: u8, instruction: Instruction) -> (result:
    Result<u8, InstructionError>)
    requires
        index < 16,
    ensures
        result matches Ok(value) && value == variable_registers@[index as int],
{
    match variable_registers.get(index) {
        Some(value) => Ok(value),
        None => Err(InstructionError::InstructionExecuteError(instruction)),
    }
}

fn write_register(
    variable_registers: &mut VariableRegisters,
    index: u8,
    value: u8,
    instruction: Instruction,
) -> (result: Result<(), InstructionError>)
    requires
        index < 16,
    ensures
        result is Ok,
        final(variable_registers)@ == old(variable_registers)@.update(index as int, value),
{
    match variable_registers.set(index, value) {
        Ok(_) => Ok(()),
        Err(_) => Err(InstructionError::InstructionExecuteError(instruction)),
    }
}

/// Sets register X to the immediate byte.
pub fn set_register(
    apply_instruction: bool,
    instruction: Instruction,
    variable_registers: &mut VariableRegisters,
) -> (result: ExecuteResult)
    ensures
        succeeded(result, Operation::SetRegister, instruction),
        final(variable_registers)@ == if apply_instruction {
            with_x(instruction, old(variable_registers)@, instruction.immediate() as u8)
        } else {
            old(variable_registers)@
        },
{
    let index = register_x(instruction);
    let value = immediate(instruction);

    if apply_instruction {
        write_register(variable_registers, index, value, instruction)?;
    }
    let mut text = String::from_str("V");
    append_decimal(&mut text, index as usize);
    text.append(" = ");
    append_hex_byte(&mut text, value);
    text.append(" / ");
    append_decimal(&mut text, value as usize);
    done(text)
}

/// Adds the immediate byte to register X. The sum wraps, and no flag is set.
pub fn add_to_register(
    apply_instruction: bool,
    instruction: Instruction,
    variable_registers: &mut VariableRegisters,
) -> (result: ExecuteResult)
    ensures
        succeeded(result, Operation::AddToRegister, instruction),
        final(variable_registers)@ == if apply_instruction {
            with_x(
                instruction,
                old(variable_registers)@,
                wrapped_sum(vx(instruction, old(variable_registers)@), instruction.immediate() as u8),
            )
        } else {
            old(variable_registers)@
        },
{
    let x = register_x(instruction);
    let value = immediate(instruction);

    if apply_instruction {
        let x_value = read_register(variable_registers, x, instruction)?;
        let new_value = ((x_value as u16 + value as u16) % 256) as u8;
        write_register(variable_registers, x, new_value, instruction)?;
    }
    let mut text = String::from_str("V");
    append_decimal(&mut text, x as usize);
    text.append(" += ");
    append_hex_byte(&mut text, value);
    text.append(" / ");
    append_decimal(&mut text, value as usize);
    text.append(" wrapped");
    done(text)
}

/// Sets register X to what register Y holds.
pub fn set_x_value_of_y(
    apply_instruction: bool,
    instruction: Instruction,
    variable_registers: &mut VariableRegisters,
) -> (result: ExecuteResult)
    ensures
        succeeded(result, Operation::Assign, instruction),
        final(variable_registers)@ == if apply_instruction {
            with_x(instruction, old(variable_registers)@, vy(instruction, old(variable_registers)@))
        } else {
            old(variable_registers)@
        },
{
    let x = register_x(instruction);
    let y = register_y(instruction);

    if apply_instruction {
        let y_value = read_register(variable_registers, y, instruction)?;
        write_register(variable_registers, x, y_value, instruction)?;
    }
    let mut text = String::from_str("V");
    append_decimal(&mut text, x as usize);
    text.append(" = V");
    append_decimal(&mut text, y as usize);
    done(text)
}

/// Sets register X to the bitwise OR of registers X and Y.
pub fn or_x_value_of_y(
    apply_instruction: bool,
    instruction: Instruction,
    variable_registers: &mut VariableRegisters,
) -> (result: ExecuteResult)
    ensures
        succeeded(result, Operation::Or, instruction),
        final(variable_registers)@ == if apply_instruction {
            with_x(
                instruction,
                old(variable_registers)@,
                vx(instruction, old(variable_registers)@) | vy(
                    instruction,
                    old(variable_registers)@,
                ),
            )
        } else {
            old(variable_registers)@
        },
{
    let x = register_x(instruction);
    let y = register_y(instruction);

    if apply_instruction {
        let y_value = read_register(variable_registers, y, instruction)?;
        let x_value = read_register(variable_registers, x, instruction)?;
        let new_value = x_value | y_value;
        write_register(variable_registers, x, new_value, instruction)?;
    }
    let mut text = String::from_str("V");
    append_decimal(&mut text, x as usize);
    text.append(" = V");
    append_decimal(&mut text, x as usize);
    text.append(" OR V");
    append_decimal(&mut text, y as usize);
    done(text)
}

/// Sets register X to the bitwise AND of registers X and Y.
pub fn and_x_value_of_y(
    apply_instruction: bool,
    instruction: Instruction,
    variable_registers: &mut VariableRegisters,
) -> (result: ExecuteResult)
    ensures
        succeeded(result, Operation::And, instruction),
        final(variable_registers)@ == if apply_instruction {
            with_x(
                instruction,
                old(variable_registers)@,
                vx(instruction, old(variable_registers)@) & vy(
                    instruction,
                    old(variable_registers)@,
                ),
            )
        } else {
            old(variable_registers)@
        },
{
    let x = register_x(instruction);
    let y = register_y(instruction);

    if apply_instruction {
        let y_value = read_register(variable_registers, y, instruction)?;
        let x_value = read_register(variable_registers, x, instruction)?;
        let new_value = x_value & y_value;
        write_register(variable_registers, x, new_value, instruction)?;
    }
    let mut text = String::from_str("V");
    append_decimal(&mut text, x as usize);
    text.append(" = V");
    append_decimal(&mut text, x as usize);
    text.append(" AND V");
    append_decimal(&mut text, y as usize);
    done(text)
}

/// Sets register X to the bitwise XOR of registers X and Y.
pub fn xor_x_value_of_y(
    apply_instruction: bool,
    instruction: Instruction,
    variable_registers: &mut VariableRegisters,
) -> (result: ExecuteResult)
    ensures
        succeeded(result, Operation::Xor, instruction),
        final(variable_registers)@ == if apply_instruction {
            with_x(
                instruction,
                old(variable_registers)@,
                vx(instruction, old(variable_registers)@) ^ vy(
                    instruction,
                    old(variable_registers)@,
                ),
            )
        } else {
            old(variable_registers)@
        },
{
    let x = register_x(instruction);
    let y = register_y(instruction);

    if apply_instruction {
        let x_value = read_register(variable_registers, x, instruction)?;
        let y_value = read_register(variable_registers, y, instruction)?;
        let new_value = x_value ^ y_value;
        write_register(variable_registers, x, new_value, instruction)?;
    }
    let mut text = String::from_str("V");
    append_decimal(&mut text, x as usize);
    text.append(" = V");
    append_decimal(&mut text, x as usize);
    text.append(" XOR V");
    append_decimal(&mut text, y as usize);
    done(text)
}

/// Adds register Y to register X. The sum wraps; it goes to register X, and then VF
/// becomes 1 where the sum did not fit in a byte, else 0.
pub fn add_to_x_value_of_y(
    apply_instruction: bool,
    instruction: Instruction,
    variable_registers: &mut VariableRegisters,
) -> (result: ExecuteResult)
    ensures
        succeeded(result, Operation::Add, instruction),
        final(variable_registers)@ == if apply_instruction {
            with_x_and_flag(
                instruction,
                old(variable_registers)@,
                wrapped_sum(
                    vx(instruction, old(variable_registers)@),
                    vy(instruction, old(variable_registers)@),
                ),
                flag(
                    vx(instruction, old(variable_registers)@) + vy(
                        instruction,
                        old(variable_registers)@,
                    ) > 255,
                ),
            )
        } else {
            old(variable_registers)@
        },
{
    let x = register_x(instruction);
    let y = register_y(instruction);

    if apply_instruction {
        let y_value = read_register(variable_registers, y, instruction)?;
        let x_value = read_register(variable_registers, x, instruction)?;
        let sum = x_value as u16 + y_value as u16;
        write_register(variable_registers, x, (sum % 256) as u8, instruction)?;
        write_register(
            variable_registers,
            FLAG_REGISTER,
            if sum > 255 { 1 } else { 0 },
            instruction,
        )?;
    }
    let mut text = String::from_str("V");
    append_decimal(&mut text, x as usize);
    text.append(" += V");
    append_decimal(&mut text, y as usize);
    text.append(", overflow in VF");
    done(text)
}

/// Subtracts register Y from register X. The difference wraps; it goes to register X, and
/// then VF becomes 1 where nothing was borrowed, else 0.
pub fn subtract_to_x_value_of_y(
    apply_instruction: bool,
    instruction: Instruction,
    variable_registers: &mut VariableRegisters,
) -> (result: ExecuteResult)
    ensures
        succeeded(result, Operation::Subtract, instruction),
        final(variable_registers)@ == if apply_instruction {
            with_x_and_flag(
                instruction,
                old(variable_registers)@,
                wrapped_difference(
                    vx(instruction, old(variable_registers)@),
                    vy(instruction, old(variable_registers)@),
                ),
                flag(
                    vx(instruction, old(variable_registers)@) >= vy(
                        instruction,
                        old(variable_registers)@,
                    ),
                ),
            )
        } else {
            old(variable_registers)@
        },
{
    let x = register_x(instruction);
    let y = register_y(instruction);

    if apply_instruction {
        let y_value = read_register(variable_registers, y, instruction)?;
        let x_value = read_register(variable_registers, x, instruction)?;
        let borrowed = x_value < y_value;
        let difference = if borrowed {
            (256 + x_value as u16 - y_value as u16) as u8
        } else {
            x_value - y_value
        };
        write_register(variable_registers, x, difference, instruction)?;
        write_register(
            variable_registers,
            FLAG_REGISTER,
            if borrowed { 0 } else { 1 },
            instruction,
        )?;
    }
    let mut text = String::from_str("V");
    append_decimal(&mut text, x as usize);
    text.append(" -= V");
    append_decimal(&mut text, y as usize);
    text.append(", underflow in VF");
    done(text)
}

/// Sets register X to register Y shifted right by one bit; then VF becomes the bit that
/// was shifted out, the lowest bit of register Y.
pub fn set_x_right_shifted_y(
    apply_instruction: bool,
    instruction: Instruction,
    variable_registers: &mut VariableRegisters,
) -> (result: ExecuteResult)
    ensures
        succeeded(result, Operation::ShiftRight, instruction),
        final(variable_registers)@ == if apply_instruction {
            with_x_and_flag(
                instruction,
                old(variable_registers)@,
                vy(instruction, old(variable_registers)@) / 2,
                vy(instruction, old(variable_registers)@) % 2,
            )
        } else {
            old(variable_registers)@
        },
{
    let x = register_x(instruction);
    let y = register_y(instruction);

    if apply_instruction {
        let y_value = read_register(variable_registers, y, instruction)?;
        let flag = {
            if y_value & 0x01 > 0 {
                1
            } else {
                0
            }
        };
        let shifted = y_value >> 1;
        proof {
            assert((y_value & 0x01 > 0) == (y_value % 2 == 1)) by (bit_vector);
            assert(y_value >> 1u8 == y_value / 2) by (bit_vector);
        }
        write_register(variable_registers, x, shifted, instruction)?;
        write_register(variable_registers, FLAG_REGISTER, flag, instruction)?;
    }
    let mut text = String::from_str("V");
    append_decimal(&mut text, x as usize);
    text.append(" = V");
    append_decimal(&mut text, y as usize);
    text.append(" >> 1, overflow in VF");
    done(text)
}

/// Subtracts register X from register Y. The difference wraps; it goes to register X,
/// and then VF becomes 1 where nothing was borrowed, else 0.
pub fn subtract_to_x_value_of_y_reversed(
    apply_instruction: bool,
    instruction: Instruction,
    variable_registers: &mut VariableRegisters,
) -> (result: ExecuteResult)
    ensures
        succeeded(result, Operation::SubtractReversed, instruction),
        final(variable_registers)@ == if apply_instruction {
            with_x_and_flag(
                instruction,
                old(variable_registers)@,
                wrapped_difference(
                    vy(instruction, old(variable_registers)@),
                    vx(instruction, old(variable_registers)@),
                ),
                flag(
                    vy(instruction, old(variable_registers)@) >= vx(
                        instruction,
                        old(variable_registers)@,
                    ),
                ),
            )
        } else {
            old(variable_registers)@
        },
{
    let x = register_x(instruction);
    let y = register_y(instruction);

    if apply_instruction {
        let y_value = read_register(variable_registers, y, instruction)?;
        let x_value = read_register(variable_registers, x, instruction)?;
        let borrowed = y_value < x_value;
        let difference = if borrowed {
            (256 + y_value as u16 - x_value as u16) as u8
        } else {
            y_value - x_value
        };
        write_register(variable_registers, x, difference, instruction)?;
        write_register(
            variable_registers,
            FLAG_REGISTER,
            if borrowed { 0 } else { 1 },
            instruction,
        )?;
    }
    let mut text = String::from_str("V");
    append_decimal(&mut text, x as usize);
    text.append(" = V");
    append_decimal(&mut text, y as usize);
    text.append(" - V");
    append_decimal(&mut text, x as usize);
    text.append(", underflow in VF");
    done(text)
}

/// Sets register X to register Y shifted left by one bit; then VF becomes the bit that
/// was shifted out, the highest bit of register Y.
pub fn set_x_left_shifted_y(
    apply_instruction: bool,
    instruction: Instruction,
    variable_registers: &mut VariableRegisters,
) -> (result: ExecuteResult)
    ensures
        succeeded(result, Operation::ShiftLeft, instruction),
        final(variable_registers)@ == if apply_instruction {
            with_x_and_flag(
                instruction,
                old(variable_registers)@,
                wrapped_sum(
                    vy(instruction, old(variable_registers)@),
                    vy(instruction, old(variable_registers)@),
                ),
                vy(instruction, old(variable_registers)@) / 128,
            )
        } else {
            old(variable_registers)@
        },
{
    let x = register_x(instruction);
    let y = register_y(instruction);

    if apply_instruction {
        let y_value = read_register(variable_registers, y, instruction)?;
        let flag = {
            if y_value & 0x80 > 0 {
                1
            } else {
                0
            }
        };
        let shifted = y_value << 1;
        proof {
            assert((y_value & 0x80 > 0) == (y_value / 128 == 1)) by (bit_vector);
            assert((y_value << 1u8) == (y_value + y_value) % 256) by (bit_vector);
        }
        write_register(variable_registers, x, shifted, instruction)?;
        write_register(variable_registers, FLAG_REGISTER, flag, instruction)?;
    }
    let mut text = String::from_str("V");
    append_decimal(&mut text, x as usize);
    text.append(" = V");
    append_decimal(&mut text, y as usize);
    text.append(" << 1, overflow in VF");
    done(text)
}

/// Sets the index register to the address of the instruction.
pub fn set_index_register(
    apply_instruction: bool,
    instruction: Instruction,
    index_register: &mut usize,
) -> (result: ExecuteResult)
    ensures
        succeeded(result, Operation::SetIndex, instruction),
        *final(index_register) == if apply_instruction {
            instruction.address() as usize
        } else {
            *old(index_register)
        },
{
    let value = address(instruction);
    if apply_instruction {
        (*index_register) = value as usize;
    }
    let mut text = String::from_str("I = ");
    append_hex_word(&mut text, value);
    done(text)
}

/// Sets the program counter to the address of the instruction plus what register 0 holds.
pub fn jump_v0(
    apply_instruction: bool,
    instruction: Instruction,
    program_counter: &mut ProgramCounter,
    variable_registers: &VariableRegisters,
) -> (result: ExecuteResult)
    ensures
        succeeded(result, Operation::JumpV0, instruction),
        final(program_counter)@ == if apply_instruction {
            (instruction.address() + variable_registers@[0]) as usize
        } else {
            old(program_counter)@
        },
{
    let value = address(instruction);

    if apply_instruction {
        let x_value = read_register(variable_registers, 0, instruction)?;
        traits::ProgramCounter::set_position(program_counter, value as usize + x_value as usize);
    }
    let mut text = String::from_str("jump V0 + ");
    append_hex_word(&mut text, value);
    done(text)
}

/// The registers after `random_value`, masked by the immediate byte, went to register X.
pub open spec fn masked_to_x(instruction: Instruction, registers: Seq<u8>, random_value: u8) -> Seq<
    u8,
> {
    with_x(instruction, registers, random_value & instruction.immediate() as u8)
}

/// Sets register X to `random_value` masked by the immediate byte.
pub fn set_register_random_value(
    apply_instruction: bool,
    instruction: Instruction,
    variable_registers: &mut VariableRegisters,
    random_value: u8,
) -> (result: ExecuteResult)
    ensures
        succeeded(result, Operation::Random, instruction),
        final(variable_registers)@ == if apply_instruction {
            masked_to_x(instruction, old(variable_registers)@, random_value)
        } else {
            old(variable_registers)@
        },
{
    let x = register_x(instruction);
    let value = immediate(instruction);

    if apply_instruction {
        write_register(variable_registers, x, random_value & value, instruction)?;
    }
    let mut text = String::from_str("V");
    append_decimal(&mut text, x as usize);
    text.append(" = random AND ");
    append_hex_byte(&mut text, value);
    done(text)
}

/// Sets register X to a random byte masked by the immediate byte. The byte is drawn only
/// where the instruction is applied.
pub fn set_register_random<Random: traits::Random>(
    apply_instruction: bool,
    instruction: Instruction,
    variable_registers: &mut VariableRegisters,
    random: &mut Random,
) -> (result: ExecuteResult)
    ensures
        succeeded(result, Operation::Random, instruction),
        !apply_instruction ==> final(variable_registers)@ == old(variable_registers)@ && *final(random) == *old(random),
        apply_instruction ==> exists|random_value: u8|
            final(variable_registers)@ == #[trigger] masked_to_x(
                instruction,
                old(variable_registers)@,
                random_value,
            ),
{
    let random_value = if apply_instruction {
        random.value()
    } else {
        0
    };
    set_register_random_value(apply_instruction, instruction, variable_registers, random_value)
}

/// Whether a sprite of `rows` rows that lies at `index` in `memory` can be drawn: the
/// rows all lie in the memory.
pub open spec fn can_draw(memory: Seq<u8>, index: usize, rows: nat) -> bool {
    index + rows <= memory.len()
}

/// The registers with VF lowered to 0, as they are when a draw reads its place.
pub open spec fn flag_lowered(registers: Seq<u8>) -> Seq<u8> {
    registers.update(FLAG_REGISTER as int, 0)
}

/// The bytes of the sprite that an instruction draws: as many as its low nibble says,
/// from the index register on.
pub open spec fn sprite_of(instruction: Instruction, memory: Seq<u8>, index: usize) -> Seq<u8> {
    memory.subrange(index as int, index + instruction.low_nibble())
}

/// Draws a sprite. VF is lowered first; then the sprite, whose rows are the bytes at the
/// index register, is drawn at the column that register X and the row that register Y
/// hold; then VF becomes 1 where a cell was erased, else it stays 0. Fails, and changes
/// nothing, where the rows of the sprite do not all lie in the memory.
pub fn display(
    apply_instruction: bool,
    instruction: Instruction,
    index_register: &usize,
    variable_registers: &mut VariableRegisters,
    memory: &Memory,
    screen_memory: &mut ScreenMemory,
) -> (result: ExecuteResult)
    ensures
        if apply_instruction && !can_draw(memory@, *index_register, instruction.low_nibble()) {
            failed(result, instruction) && final(variable_registers)@ == old(variable_registers)@
                && final(screen_memory)@ == old(screen_memory)@
        } else {
            succeeded(result, Operation::Draw, instruction) && final(screen_memory)@
                == if apply_instruction {
                blit(
                    old(screen_memory)@,
                    vx(instruction, flag_lowered(old(variable_registers)@)),
                    vy(instruction, flag_lowered(old(variable_registers)@)),
                    sprite_of(instruction, memory@, *index_register),
                    instruction.low_nibble(),
                )
            } else {
                old(screen_memory)@
            } && final(variable_registers)@ == if apply_instruction {
                flag_lowered(old(variable_registers)@).update(
                    FLAG_REGISTER as int,
                    flag(
                        collides(
                            old(screen_memory)@,
                            vx(instruction, flag_lowered(old(variable_registers)@)),
                            vy(instruction, flag_lowered(old(variable_registers)@)),
                            sprite_of(instruction, memory@, *index_register),
                            instruction.low_nibble(),
                        ),
                    ),
                )
            } else {
                old(variable_registers)@
            }
        },
{
    let register_of_x = register_x(instruction);
    let register_of_y = register_y(instruction);
    let n = low_nibble(instruction);

    if apply_instruction {
        let sprite = match memory.block(*index_register, n as usize) {
            Ok(sprite) => sprite,
            Err(_) => return Err(InstructionError::InstructionExecuteError(instruction)),
        };
        write_register(variable_registers, FLAG_REGISTER, 0, instruction)?;
        let x_value = read_register(variable_registers, register_of_x, instruction)?;
        let y_value = read_register(variable_registers, register_of_y, instruction)?;

        if traits::ScreenMemory::display(screen_memory, x_value, y_value, sprite, n) {
            write_register(variable_registers, FLAG_REGISTER, 1, instruction)?;
        } else {
            write_register(variable_registers, FLAG_REGISTER, 0, instruction)?;
        }
    }
    let mut text = String::from_str("display (V");
    append_decimal(&mut text, register_of_x as usize);
    text.append(", V");
    append_decimal(&mut text, register_of_y as usize);
    text.append(") -> 5x");
    append_hex_byte(&mut text, n);
    text.append(", flip in VF");
    done(text)
}

/// What a skip on a key makes of the counter, where the keypad said `pressed` of the key
/// and the skip is taken on `wanted`.
pub open spec fn key_skip_outcome(
    result: ExecuteResult,
    after: usize,
    operation: Operation,
    instruction: Instruction,
    before: usize,
    apply_instruction: bool,
    pressed: bool,
    wanted: bool,
) -> bool {
    skip_outcome(
        result,
        after,
        operation,
        instruction,
        before,
        apply_instruction && pressed == wanted,
    )
}

/// Skips the next instruction where `pressed` says that the key is down.
pub fn skip_if_pressed_given(
    apply_instruction: bool,
    instruction: Instruction,
    pressed: bool,
    program_counter: &mut ProgramCounter,
) -> (result: ExecuteResult)
    ensures
        key_skip_outcome(
            result,
            final(program_counter)@,
            Operation::SkipIfPressed,
            instruction,
            old(program_counter)@,
            apply_instruction,
            pressed,
            true,
        ),
{
    let x = register_x(instruction);
    let mut text = String::from_str("skip if key V");
    append_decimal(&mut text, x as usize);
    text.append(" down");
    skip_when(apply_instruction && pressed, instruction, program_counter, text)
}

/// Skips the next instruction where `pressed` says that the key is up.
pub fn skip_if_not_pressed_given(
    apply_instruction: bool,
    instruction: Instruction,
    pressed: bool,
    program_counter: &mut ProgramCounter,
) -> (result: ExecuteResult)
    ensures
        key_skip_outcome(
            result,
            final(program_counter)@,
            Operation::SkipIfNotPressed,
            instruction,
            old(program_counter)@,
            apply_instruction,
            pressed,
            false,
        ),
{
    let x = register_x(instruction);
    let mut text = String::from_str("skip if key V");
    append_decimal(&mut text, x as usize);
    text.append(" up");
    skip_when(apply_instruction && !pressed, instruction, program_counter, text)
}

/// The key that an instruction asks the keypad about: the one whose number register X
/// holds.
pub fn key_of_register_x(instruction: Instruction, variable_registers: &VariableRegisters) -> (key:
    usize)
    ensures
        key == vx(instruction, variable_registers@),
{
    let x = register_x(instruction);
    match variable_registers.get(x) {
        Some(x_value) => x_value as usize,
        None => 0,
    }
}

/// Skips the next instruction where the keypad says that the key that register X names
/// is down. The keypad is asked only where the instruction is applied, and then about
/// the key that `key_of_register_x` gives.
pub fn skip_if_pressed<Keypad: traits::Keypad>(
    apply_instruction: bool,
    instruction: Instruction,
    keypad: &Keypad,
    variable_registers: &VariableRegisters,
    program_counter: &mut ProgramCounter,
) -> (result: ExecuteResult)
    ensures
        exists|pressed: bool|
            key_skip_outcome(
                result,
                final(program_counter)@,
                Operation::SkipIfPressed,
                instruction,
                old(program_counter)@,
                apply_instruction,
                pressed,
                true,
            ),
{
    let mut pressed = false;
    if apply_instruction {
        pressed = keypad.key_state(key_of_register_x(instruction, variable_registers));
    }
    skip_if_pressed_given(apply_instruction, instruction, pressed, program_counter)
}

/// Skips the next instruction where the keypad says that the key that register X names
/// is up. The keypad is asked only where the instruction is applied, and then about the
/// key that `key_of_register_x` gives.
pub fn skip_if_not_pressed<Keypad: traits::Keypad>(
    apply_instruction: bool,
    instruction: Instruction,
    keypad: &Keypad,
    variable_registers: &VariableRegisters,
    program_counter: &mut ProgramCounter,
) -> (result: ExecuteResult)
    ensures
        exists|pressed: bool|
            key_skip_outcome(
                result,
                final(program_counter)@,
                Operation::SkipIfNotPressed,
                instruction,
                old(program_counter)@,
                apply_instruction,
                pressed,
                false,
            ),
{
    let mut pressed = false;
    if apply_instruction {
        pressed = keypad.key_state(key_of_register_x(instruction, variable_registers));
    }
    skip_if_not_pressed_given(apply_instruction, instruction, pressed, program_counter)
}

/// The three instructions of the timers, told apart by the immediate byte: 0x07 reads the
/// delay timer into register X, 0x15 sets the delay timer and 0x18 the sound timer to what
/// register X holds. Any other byte fails.
pub fn set_timer(
    apply_instruction: bool,
    instruction: Instruction,
    variable_registers: &mut VariableRegisters,
    delay_timer: &mut DelayTimer,
    sound_timer: &mut SoundTimer,
) -> (result: ExecuteResult)
    ensures
        instruction.immediate() == 0x07 ==> succeeded(
            result,
            Operation::ReadDelayTimer,
            instruction,
        ),
        instruction.immediate() == 0x15 ==> succeeded(result, Operation::SetDelayTimer, instruction),
        instruction.immediate() == 0x18 ==> succeeded(result, Operation::SetSoundTimer, instruction),
        instruction.immediate() != 0x07 && instruction.immediate() != 0x15
            && instruction.immediate() != 0x18 ==> failed(result, instruction),
        final(variable_registers)@ == if apply_instruction && instruction.immediate() == 0x07 {
            with_x(instruction, old(variable_registers)@, old(delay_timer)@)
        } else {
            old(variable_registers)@
        },
        final(delay_timer)@ == if apply_instruction && instruction.immediate() == 0x15 {
            vx(instruction, old(variable_registers)@)
        } else {
            old(delay_timer)@
        },
        final(sound_timer)@ == if apply_instruction && instruction.immediate() == 0x18 {
            vx(instruction, old(variable_registers)@)
        } else {
            old(sound_timer)@
        },
{
    let x = register_x(instruction);

    match immediate(instruction) {
        0x07 => {
            if apply_instruction {
                let value = traits::Timer::get(delay_timer);
                write_register(variable_registers, x, value, instruction)?;
            }
            let mut text = String::from_str("V");
            append_decimal(&mut text, x as usize);
            text.append(" = delay timer");
            done(text)
        },
        0x15 => {
            if apply_instruction {
                let value = read_register(variable_registers, x, instruction)?;
                traits::Timer::set(delay_timer, value);
            }
            let mut text = String::from_str("set delay timer V");
            append_decimal(&mut text, x as usize);
            done(text)
        },
        0x18 => {
            if apply_instruction {
                let value = read_register(variable_registers, x, instruction)?;
                traits::Timer::set(sound_timer, value);
            }
            let mut text = String::from_str("set sound timer V");
            append_decimal(&mut text, x as usize);
            done(text)
        },
        _ => return Err(InstructionError::InstructionExecuteError(instruction)),
    }
}

/// Adds what register X holds to the index register. No flag is set. Fails, and changes
/// nothing, where the sum is no address of the machine.
pub fn add_to_index(
    apply_instruction: bool,
    instruction: Instruction,
    variable_registers: &VariableRegisters,
    index_register: &mut usize,
) -> (result: ExecuteResult)
    ensures
        if apply_instruction && *old(index_register) + vx(instruction, variable_registers@)
            > usize::MAX {
            failed(result, instruction) && *final(index_register) == *old(index_register)
        } else {
            succeeded(result, Operation::AddToIndex, instruction) && *final(index_register)
                == if apply_instruction {
                (*old(index_register) + vx(instruction, variable_registers@)) as usize
            } else {
                *old(index_register)
            }
        },
{
    let x = register_x(instruction);

    if apply_instruction {
        let x_value = read_register(variable_registers, x, instruction)?;
        match (*index_register).checked_add(x_value as usize) {
            Some(sum) => {
                (*index_register) = sum;
            },
            None => return Err(InstructionError::InstructionExecuteError(instruction)),
        }
    }
    let mut text = String::from_str("I += V");
    append_decimal(&mut text, x as usize);
    done(text)
}

/// What the wait for a key makes of the registers and the counter, where `keys` says
/// which keys are down: the number of the first key that is down goes to register X;
/// where none is down, the counter goes back over the instruction, so that it is fetched
/// again. Where the counter cannot go back, the instruction fails.
pub open spec fn wait_outcome(
    result: ExecuteResult,
    registers_after: Seq<u8>,
    counter_after: usize,
    apply_instruction: bool,
    instruction: Instruction,
    keys: Seq<bool>,
    registers: Seq<u8>,
    counter: usize,
) -> bool {
    if !apply_instruction {
        succeeded(result, Operation::WaitForKey, instruction) && registers_after == registers
            && counter_after == counter
    } else {
        match first_key_down(keys) {
            Some(key) => succeeded(result, Operation::WaitForKey, instruction) && registers_after
                == with_x(instruction, registers, key as u8) && counter_after == counter,
            None => if counter >= 2 {
                succeeded(result, Operation::WaitForKey, instruction) && registers_after
                    == registers && counter_after == counter - 2
            } else {
                failed(result, instruction) && registers_after == registers && counter_after
                    == counter
            },
        }
    }
}

/// Waits for a key, given which keys are down.
pub fn wait_for_key_given(
    apply_instruction: bool,
    instruction: Instruction,
    keypad_state: [bool; 16],
    variable_registers: &mut VariableRegisters,
    program_counter: &mut ProgramCounter,
) -> (result: ExecuteResult)
    ensures
        wait_outcome(
            result,
            final(variable_registers)@,
            final(program_counter)@,
            apply_instruction,
            instruction,
            keypad_state@,
            old(variable_registers)@,
            old(program_counter)@,
        ),
{
    let x = register_x(instruction);
    let mut text = String::from_str("wait for any key down, set key to V");
    append_decimal(&mut text, x as usize);

    if apply_instruction {
        let mut key_down = false;
        let mut index: usize = 0;
        while index < 16
            invariant_except_break
                !key_down,
                forall|before: int| 0 <= before < index ==> !keypad_state@[before],
                variable_registers@ == old(variable_registers)@,
            invariant
                index <= 16,
                x < 16,
            ensures
                key_down ==> index < 16 && first_key_down(keypad_state@) == Some(index as int)
                    && variable_registers@ == old(variable_registers)@.update(
                    x as int,
                    index as u8,
                ),
                !key_down ==> first_key_down(keypad_state@) is None && variable_registers@ == old(variable_registers)@,
            decreases 16 - index,
        {
            if keypad_state[index] {
                proof {
                    lemma_first_key_down_is(keypad_state@, index as int);
                }
                write_register(variable_registers, x, index as u8, instruction)?;
                key_down = true;
                break ;
            }
            index += 1;
        }
        proof {
            lemma_first_key_down(keypad_state@);
        }

        if !key_down {
            if traits::ProgramCounter::get_position(program_counter) < 2 {
                return Err(InstructionError::InstructionExecuteError(instruction));
            }
            traits::ProgramCounter::go_back(program_counter);
        }
    }
    done(text)
}

/// Waits for a key: asks the keypad which keys are down, where the instruction is
/// applied, and goes on as `wait_for_key_given` does.
pub fn wait_for_key<Keypad: traits::Keypad>(
    apply_instruction: bool,
    instruction: Instruction,
    keypad: &Keypad,
    variable_registers: &mut VariableRegisters,
    program_counter: &mut ProgramCounter,
) -> (result: ExecuteResult)
    ensures
        exists|keys: Seq<bool>|
            keys.len() == 16 && wait_outcome(
                result,
                final(variable_registers)@,
                final(program_counter)@,
                apply_instruction,
                instruction,
                keys,
                old(variable_registers)@,
                old(program_counter)@,
            ),
{
    let keypad_state = if apply_instruction {
        keypad.state()
    } else {
        [false;16]
    };
    let result = wait_for_key_given(
        apply_instruction,
        instruction,
        keypad_state,
        variable_registers,
        program_counter,
    );
    assert(keypad_state@.len() == 16 && wait_outcome(
        result,
        variable_registers@,
        program_counter@,
        apply_instruction,
        instruction,
        keypad_state@,
        old(variable_registers)@,
        old(program_counter)@,
    ));
    result
}

/// Sets the index register to where the glyph lies for the digit in the low half of
/// register X: five bytes per glyph from `font_start` on. Fails, and changes nothing,
/// where that is no address of the machine.
pub fn font_character(
    apply_instruction: bool,
    instruction: Instruction,
    variable_registers: &VariableRegisters,
    index_register: &mut usize,
    font_start: usize,
) -> (result: ExecuteResult)
    ensures
        if apply_instruction && font_start + (vx(instruction, variable_registers@) % 16) * 5
            > usize::MAX {
            failed(result, instruction) && *final(index_register) == *old(index_register)
        } else {
            succeeded(result, Operation::FontCharacter, instruction) && *final(index_register)
                == if apply_instruction {
                (font_start + (vx(instruction, variable_registers@) % 16) * 5) as usize
            } else {
                *old(index_register)
            }
        },
{
    let x = register_x(instruction);

    if apply_instruction {
        let x_value = read_register(variable_registers, x, instruction)?;
        let offset = (x_value % 16) as usize * 5;
        match font_start.checked_add(offset) {
            Some(location) => {
                (*index_register) = location;
            },
            None => return Err(InstructionError::InstructionExecuteError(instruction)),
        }
    }
    let mut text = String::from_str("I = font_start + V");
    append_decimal(&mut text, x as usize);
    done(text)
}

/// Writes the three decimal digits of register X to the memory at the index register:
/// hundreds, tens, ones. Fails, and changes nothing, where they do not fit in the memory.
pub fn binary_to_decimal(
    apply_instruction: bool,
    instruction: Instruction,
    variable_registers: &VariableRegisters,
    memory: &mut Memory,
    index_register: &usize,
) -> (result: ExecuteResult)
    ensures
        if apply_instruction && *index_register + 3 > old(memory)@.len() {
            failed(result, instruction) && final(memory)@ == old(memory)@
        } else {
            succeeded(result, Operation::BinaryToDecimal, instruction) && final(memory)@
                == if apply_instruction {
                overwritten(
                    old(memory)@,
                    *index_register as int,
                    decimal_digits(vx(instruction, variable_registers@)),
                )
            } else {
                old(memory)@
            }
        },
{
    let x = register_x(instruction);

    if apply_instruction {
        let x_value = read_register(variable_registers, x, instruction)?;
        let digits = [x_value / 100, x_value % 100 / 10, x_value % 10];
        assert(digits@ =~= decimal_digits(x_value));
        match memory.set_block(*index_register, digits.as_slice()) {
            Ok(_) => {},
            Err(_) => return Err(InstructionError::InstructionExecuteError(instruction)),
        }
    }
    let mut text = String::from_str("Memory[I..I+2] = V");
    append_decimal(&mut text, x as usize);
    done(text)
}

/// Writes the registers 0 to X to the memory from the index register on. Fails, and
/// changes nothing, where they do not fit in the memory.
pub fn register_to_memory(
    apply_instruction: bool,
    instruction: Instruction,
    variable_registers: &VariableRegisters,
    memory: &mut Memory,
    index_register: usize,
) -> (result: ExecuteResult)
    ensures
        if apply_instruction && index_register + instruction.register_x() + 1 > old(memory)@.len() {
            failed(result, instruction) && final(memory)@ == old(memory)@
        } else {
            succeeded(result, Operation::StoreRegisters, instruction) && final(memory)@
                == if apply_instruction {
                overwritten(
                    old(memory)@,
                    index_register as int,
                    variable_registers@.subrange(0, instruction.register_x() as int + 1),
                )
            } else {
                old(memory)@
            }
        },
{
    let x = register_x(instruction);

    if apply_instruction {
        let values = variable_registers.get_all();
        let block = vstd::slice::slice_subrange(values.as_slice(), 0, x as usize + 1);
        match memory.set_block(index_register, block) {
            Ok(_) => {},
            Err(_) => return Err(InstructionError::InstructionExecuteError(instruction)),
        }
    }
    let mut text = String::from_str("Memory[I..I + ");
    append_decimal(&mut text, x as usize);
    text.append("] = V0..V");
    append_decimal(&mut text, x as usize);
    done(text)
}

/// Reads the registers 0 to X from the memory from the index register on. Fails, and
/// changes nothing, where the bytes do not all lie in the memory.
pub fn memory_to_register(
    apply_instruction: bool,
    instruction: Instruction,
    variable_registers: &mut VariableRegisters,
    memory: &Memory,
    index_register: usize,
) -> (result: ExecuteResult)
    ensures
        if apply_instruction && index_register + instruction.register_x() + 1 > memory@.len() {
            failed(result, instruction) && final(variable_registers)@ == old(variable_registers)@
        } else {
            succeeded(result, Operation::LoadRegisters, instruction) && final(variable_registers)@
                == if apply_instruction {
                registers_loaded(
                    old(variable_registers)@,
                    memory@.subrange(
                        index_register as int,
                        index_register + instruction.register_x() + 1,
                    ),
                    instruction.register_x() as int + 1,
                )
            } else {
                old(variable_registers)@
            }
        },
{
    let x = register_x(instruction);

    if apply_instruction {
        let block = match memory.block(index_register, x as usize + 1) {
            Ok(block) => block,
            Err(_) => return Err(InstructionError::InstructionExecuteError(instruction)),
        };
        proof {
            variable_registers.lemma_len();
        }
        let mut offset: u8 = 0;
        assert(variable_registers@ =~= registers_loaded(old(variable_registers)@, block@, 0));
        while offset <= x
            invariant
                x < 16,
                offset <= x + 1,
                block@.len() == x + 1,
                variable_registers@.len() == 16,
                variable_registers@ == registers_loaded(
                    old(variable_registers)@,
                    block@,
                    offset as int,
                ),
            decreases x + 1 - offset,
        {
            write_register(variable_registers, offset, block[offset as usize], instruction)?;
            offset += 1;
            assert(variable_registers@ =~= registers_loaded(
                old(variable_registers)@,
                block@,
                offset as int,
            ));
        }
    }
    let mut text = String::from_str("V0..V");
    append_decimal(&mut text, x as usize);
    text.append(" = Memory[I..I + ");
    append_decimal(&mut text, x as usize);
    text.append("]");
    done(text)
}

/// Whether `result` and the machine `after` are what `instruction` makes of the machine
/// `before`, where the frontend answers `polled`. An instruction that is not supported
/// says so and changes nothing. One that is only read gives its text and changes
/// nothing. One that is applied gives its text and the machine that follows, or fails
/// and changes nothing where the machine's state does not allow it.
pub open spec fn outcome(
    result: ExecuteResult,
    after: Machine,
    apply_instruction: bool,
    instruction: Instruction,
    before: Machine,
    font_start: usize,
    polled: Polled,
) -> bool {
    if operation(instruction) is Unsupported {
        unsupported(result, instruction) && after == before
    } else if !apply_instruction {
        succeeded(result, operation(instruction), instruction) && after == before
    } else {
        match perform(operation(instruction), instruction, before, font_start, polled) {
            Some(next) => succeeded(result, operation(instruction), instruction) && after == next,
            None => failed(result, instruction) && after == before,
        }
    }
}

/// Carries out an instruction, or only reads it if apply_instruction == false, given what
/// the frontend answers: whether the key that register X names is down, which keys are
/// down, and the random byte.
///
/// The class of the instruction selects the operation; see `operation`.
#[verifier::rlimit(100)]
pub fn execute_given(
    apply_instruction: bool,
    instruction: Instruction,
    program_counter: &mut ProgramCounter,
    stack: &mut Stack,
    memory: &mut Memory,
    screen_memory: &mut ScreenMemory,
    variable_registers: &mut VariableRegisters,
    key_down: bool,
    keypad_state: [bool; 16],
    index_register: &mut usize,
    delay_timer: &mut DelayTimer,
    sound_timer: &mut SoundTimer,
    random_value: u8,
    font_start: usize,
) -> (result: ExecuteResult)
    ensures
        outcome(
            result,
            machine_of(
                *final(program_counter),
                *final(stack),
                *final(memory),
                *final(screen_memory),
                *final(variable_registers),
                *final(index_register),
                *final(delay_timer),
                *final(sound_timer),
            ),
            apply_instruction,
            instruction,
            machine_of(
                *old(program_counter),
                *old(stack),
                *old(memory),
                *old(screen_memory),
                *old(variable_registers),
                *old(index_register),
                *old(delay_timer),
                *old(sound_timer),
            ),
            font_start,
            Polled { key_down, keys: keypad_state@, random: random_value },
        ),
        result matches Ok(state) ==> state.instruction_disassembly@.len() > 0,
        !apply_instruction ==> machine_of(
            *final(program_counter),
            *final(stack),
            *final(memory),
            *final(screen_memory),
            *final(variable_registers),
            *final(index_register),
            *final(delay_timer),
            *final(sound_timer),
        ) == machine_of(
            *old(program_counter),
            *old(stack),
            *old(memory),
            *old(screen_memory),
            *old(variable_registers),
            *old(index_register),
            *old(delay_timer),
            *old(sound_timer),
        ),
        !apply_instruction ==> (result is Ok <==> !(operation(instruction) is Unsupported)),
{
    let ghost before = machine_of(
        *program_counter,
        *stack,
        *memory,
        *screen_memory,
        *variable_registers,
        *index_register,
        *delay_timer,
        *sound_timer,
    );
    let ghost polled = Polled { key_down, keys: keypad_state@, random: random_value };
    proof {
        variable_registers.lemma_len();
        if !(operation(instruction) is Unsupported) {
            lemma_operation_text_not_empty(operation(instruction), instruction);
        }
    }
    let count = class_of(instruction);

    let result = match count {
        0x00 => {
            let nnn = address(instruction);
            match nnn {
                0x0e0 => clear_screen(apply_instruction, screen_memory),
                0x0ee => pop_stack(apply_instruction, instruction, stack, program_counter),
                _ => Err(InstructionError::UnsupportedInstructionError(instruction)),
            }
        },
        0x01 => jump(apply_instruction, instruction, program_counter),
        0x02 => push_stack(apply_instruction, instruction, stack, program_counter),
        0x03 => skip_if_equal_value(
            apply_instruction,
            instruction,
            variable_registers,
            program_counter,
        ),
        0x04 => skip_if_not_equal_to_value(
            apply_instruction,
            instruction,
            variable_registers,
            program_counter,
        ),
        0x05 => skip_if_equal(apply_instruction, instruction, variable_registers, program_counter),
        0x09 => skip_if_not_equal(
            apply_instruction,
            instruction,
            variable_registers,
            program_counter,
        ),
        0x06 => set_register(apply_instruction, instruction, variable_registers),
        0x07 => add_to_register(apply_instruction, instruction, variable_registers),
        0x08 => {
            let n = low_nibble(instruction);
            match n {
                0x00 => set_x_value_of_y(apply_instruction, instruction, variable_registers),
                0x01 => or_x_value_of_y(apply_instruction, instruction, variable_registers),
                0x02 => and_x_value_of_y(apply_instruction, instruction, variable_registers),
                0x03 => xor_x_value_of_y(apply_instruction, instruction, variable_registers),
                0x04 => add_to_x_value_of_y(apply_instruction, instruction, variable_registers),
                0x05 => subtract_to_x_value_of_y(
                    apply_instruction,
                    instruction,
                    variable_registers,
                ),
                0x06 => set_x_right_shifted_y(apply_instruction, instruction, variable_registers),
                0x07 => subtract_to_x_value_of_y_reversed(
                    apply_instruction,
                    instruction,
                    variable_registers,
                ),
                0x0e => set_x_left_shifted_y(apply_instruction, instruction, variable_registers),
                _ => Err(InstructionError::UnsupportedInstructionError(instruction)),
            }
        },
        0x0a => set_index_register(apply_instruction, instruction, index_register),
        0x0b => jump_v0(apply_instruction, instruction, program_counter, variable_registers),
        0x0c => set_register_random_value(
            apply_instruction,
            instruction,
            variable_registers,
            random_value,
        ),
        0x0d => display(
            apply_instruction,
            instruction,
            index_register,
            variable_registers,
            memory,
            screen_memory,
        ),
        0x0e => {
            let nn = immediate(instruction);
            match nn {
                0x9e => skip_if_pressed_given(
                    apply_instruction,
                    instruction,
                    key_down,
                    program_counter,
                ),
                0xa1 => skip_if_not_pressed_given(
                    apply_instruction,
                    instruction,
                    key_down,
                    program_counter,
                ),
                _ => Err(InstructionError::UnsupportedInstructionError(instruction)),
            }
        },
        _ => {
            let nn = immediate(instruction);
            match nn {
                0x07 | 0x15 | 0x18 => set_timer(
                    apply_instruction,
                    instruction,
                    variable_registers,
                    delay_timer,
                    sound_timer,
                ),
                0x1e => add_to_index(
                    apply_instruction,
                    instruction,
                    variable_registers,
                    index_register,
                ),
                0x0a => wait_for_key_given(
                    apply_instruction,
                    instruction,
                    keypad_state,
                    variable_registers,
                    program_counter,
                ),
                0x29 => font_character(
                    apply_instruction,
                    instruction,
                    variable_registers,
                    index_register,
                    font_start,
                ),
                0x33 => binary_to_decimal(
                    apply_instruction,
                    instruction,
                    variable_registers,
                    memory,
                    index_register,
                ),
                0x55 => register_to_memory(
                    apply_instruction,
                    instruction,
                    variable_registers,
                    memory,
                    *index_register,
                ),
                0x65 => memory_to_register(
                    apply_instruction,
                    instruction,
                    variable_registers,
                    memory,
                    *index_register,
                ),
                _ => Err(InstructionError::UnsupportedInstructionError(instruction)),
            }
        },
    };
    proof {
        let after = machine_of(
            *program_counter,
            *stack,
            *memory,
            *screen_memory,
            *variable_registers,
            *index_register,
            *delay_timer,
            *sound_timer,
        );
        if apply_instruction && !(operation(instruction) is Unsupported) {
            match perform(operation(instruction), instruction, before, font_start, polled) {
                Some(next) => {
                    assert(after =~= next);
                },
                None => {
                    assert(after =~= before);
                },
            }
        } else {
            assert(after =~= before);
        }
    }
    result
}

/// Execute an instruction, or interpret the instruction if apply_instruction == false.
///
/// The keypad and the source of random bytes are asked by the operations that need
/// them, and only where the instruction is applied: the random byte by the operation of
/// class 0xC, whether a key is down by the two skips of class 0xE, and which keys are
/// down by the wait for a key. With their answers the instruction does what
/// `execute_given` says.
pub fn execute<Keypad: traits::Keypad, Random: traits::Random>(
    apply_instruction: bool,
    instruction: Instruction,
    program_counter: &mut ProgramCounter,
    stack: &mut Stack,
    memory: &mut Memory,
    screen_memory: &mut ScreenMemory,
    variable_registers: &mut VariableRegisters,
    keypad: &Keypad,
    index_register: &mut usize,
    delay_timer: &mut DelayTimer,
    sound_timer: &mut SoundTimer,
    random: &mut Random,
    font_start: usize,
) -> (result: ExecuteResult)
    ensures
        exists|polled: Polled|
            polled.keys.len() == 16 && #[trigger] outcome(
                result,
                machine_of(
                    *final(program_counter),
                    *final(stack),
                    *final(memory),
                    *final(screen_memory),
                    *final(variable_registers),
                    *final(index_register),
                    *final(delay_timer),
                    *final(sound_timer),
                ),
                apply_instruction,
                instruction,
                machine_of(
                    *old(program_counter),
                    *old(stack),
                    *old(memory),
                    *old(screen_memory),
                    *old(variable_registers),
                    *old(index_register),
                    *old(delay_timer),
                    *old(sound_timer),
                ),
                font_start,
                polled,
            ),
        result matches Ok(state) ==> state.instruction_disassembly@.len() > 0,
        !apply_instruction ==> machine_of(
            *final(program_counter),
            *final(stack),
            *final(memory),
            *final(screen_memory),
            *final(variable_registers),
            *final(index_register),
            *final(delay_timer),
            *final(sound_timer),
        ) == machine_of(
            *old(program_counter),
            *old(stack),
            *old(memory),
            *old(screen_memory),
            *old(variable_registers),
            *old(index_register),
            *old(delay_timer),
            *old(sound_timer),
        ) && *final(random) == *old(random),
        !apply_instruction ==> (result is Ok <==> !(operation(instruction) is Unsupported)),
{
    let ghost before = machine_of(
        *program_counter,
        *stack,
        *memory,
        *screen_memory,
        *variable_registers,
        *index_register,
        *delay_timer,
        *sound_timer,
    );
    let ghost mut polled = nothing_polled();
    proof {
        if !(operation(instruction) is Unsupported) {
            lemma_operation_text_not_empty(operation(instruction), instruction);
        }
    }
    let class = class_of(instruction);
    let nn = immediate(instruction);

    let result = if class == 0x0c {
        let result = set_register_random(
            apply_instruction,
            instruction,
            variable_registers,
            random,
        );
        proof {
            if apply_instruction {
                let random_value = choose|random_value: u8|
                    variable_registers@ == #[trigger] masked_to_x(
                        instruction,
                        before.registers,
                        random_value,
                    );
                polled = Polled { random: random_value, ..polled };
            }
        }
        result
    } else if class == 0x0e && nn == 0x9e {
        let result = skip_if_pressed(
            apply_instruction,
            instruction,
            keypad,
            variable_registers,
            program_counter,
        );
        proof {
            let pressed = choose|pressed: bool|
                key_skip_outcome(
                    result,
                    program_counter@,
                    Operation::SkipIfPressed,
                    instruction,
                    before.program_counter,
                    apply_instruction,
                    pressed,
                    true,
                );
            polled = Polled { key_down: pressed, ..polled };
        }
        result
    } else if class == 0x0e && nn == 0xa1 {
        let result = skip_if_not_pressed(
            apply_instruction,
            instruction,
            keypad,
            variable_registers,
            program_counter,
        );
        proof {
            let pressed = choose|pressed: bool|
                key_skip_outcome(
                    result,
                    program_counter@,
                    Operation::SkipIfNotPressed,
                    instruction,
                    before.program_counter,
                    apply_instruction,
                    pressed,
                    false,
                );
            polled = Polled { key_down: pressed, ..polled };
        }
        result
    } else if class == 0x0f && nn == 0x0a {
        let result = wait_for_key(
            apply_instruction,
            instruction,
            keypad,
            variable_registers,
            program_counter,
        );
        proof {
            let keys = choose|keys: Seq<bool>|
                keys.len() == 16 && wait_outcome(
                    result,
                    variable_registers@,
                    program_counter@,
                    apply_instruction,
                    instruction,
                    keys,
                    before.registers,
                    before.program_counter,
                );
            polled = Polled { keys, ..polled };
        }
        result
    } else {
        let no_keys = [false;16];
        proof {
            polled = Polled { key_down: false, keys: no_keys@, random: 0 };
        }
        execute_given(
            apply_instruction,
            instruction,
            program_counter,
            stack,
            memory,
            screen_memory,
            variable_registers,
            false,
            no_keys,
            index_register,
            delay_timer,
            sound_timer,
            0,
            font_start,
        )
    };
    proof {
        let after = machine_of(
            *program_counter,
            *stack,
            *memory,
            *screen_memory,
            *variable_registers,
            *index_register,
            *delay_timer,
            *sound_timer,
        );
        if apply_instruction && !(operation(instruction) is Unsupported) {
            match perform(operation(instruction), instruction, before, font_start, polled) {
                Some(next) => {
                    assert(after =~= next);
                },
                None => {
                    assert(after =~= before);
                },
            }
        } else {
            assert(after =~= before);
        }
        assert(polled.keys.len() == 16);
        assert(outcome(result, after, apply_instruction, instruction, before, font_start, polled));
    }
    result
}

} // verus!
