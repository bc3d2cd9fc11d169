//! What the machine holds and what each instruction makes of it, as plain mathematics.
//! The contracts of `cpu` and `interpreter` are stated over this model.
use vstd::prelude::*;
use crate::delay_timer::DelayTimer;
use crate::instruction::Instruction;
use crate::keypad::first_key_down;
use crate::memory::{overwritten, Memory};
use crate::program_counter::ProgramCounter;
use crate::screen_memory::{blit, collides, ScreenMemory};
use crate::sound_timer::SoundTimer;
use crate::stack::Stack;
use crate::text::{decimal_text, hex_byte_text, hex_word_text};
use crate::variable_registers::VariableRegisters;

verus! {

/// The number of the flag register, VF.
pub const FLAG_REGISTER: u8 = 0x0f;

/// What an instruction asks for.
pub enum Operation {
    ClearScreen,
    Return,
    Jump,
    Call,
    SkipIfEqualValue,
    SkipIfNotEqualValue,
    SkipIfEqual,
    SkipIfNotEqual,
    SetRegister,
    AddToRegister,
    Assign,
    Or,
    And,
    Xor,
    Add,
    Subtract,
    ShiftRight,
    SubtractReversed,
    ShiftLeft,
    SetIndex,
    JumpV0,
    Random,
    Draw,
    SkipIfPressed,
    SkipIfNotPressed,
    ReadDelayTimer,
    SetDelayTimer,
    SetSoundTimer,
    AddToIndex,
    WaitForKey,
    FontCharacter,
    BinaryToDecimal,
    StoreRegisters,
    LoadRegisters,
    Unsupported,
}

/// The operation that the two bytes of an instruction spell. The class, the high half of
/// the first byte, selects a family; some families go on by the low half or the whole of
/// the second byte.
pub open spec fn operation(instruction: Instruction) -> Operation {
    let class = instruction.class();
    let low = instruction.low_nibble();
    let immediate = instruction.immediate();
    if class == 0x0 {
        if instruction.address() == 0x0e0 {
            Operation::ClearScreen
        } else if instruction.address() == 0x0ee {
            Operation::Return
        } else {
            Operation::Unsupported
        }
    } else if class == 0x1 {
        Operation::Jump
    } else if class == 0x2 {
        Operation::Call
    } else if class == 0x3 {
        Operation::SkipIfEqualValue
    } else if class == 0x4 {
        Operation::SkipIfNotEqualValue
    } else if class == 0x5 {
        Operation::SkipIfEqual
    } else if class == 0x6 {
        Operation::SetRegister
    } else if class == 0x7 {
        Operation::AddToRegister
    } else if class == 0x8 {
        if low == 0x0 {
            Operation::Assign
        } else if low == 0x1 {
            Operation::Or
        } else if low == 0x2 {
            Operation::And
        } else if low == 0x3 {
            Operation::Xor
        } else if low == 0x4 {
            Operation::Add
        } else if low == 0x5 {
            Operation::Subtract
        } else if low == 0x6 {
            Operation::ShiftRight
        } else if low == 0x7 {
            Operation::SubtractReversed
        } else if low == 0xe {
            Operation::ShiftLeft
        } else {
            Operation::Unsupported
        }
    } else if class == 0x9 {
        Operation::SkipIfNotEqual
    } else if class == 0xa {
        Operation::SetIndex
    } else if class == 0xb {
        Operation::JumpV0
    } else if class == 0xc {
        Operation::Random
    } else if class == 0xd {
        Operation::Draw
    } else if class == 0xe {
        if immediate == 0x9e {
            Operation::SkipIfPressed
        } else if immediate == 0xa1 {
            Operation::SkipIfNotPressed
        } else {
            Operation::Unsupported
        }
    } else {
        if immediate == 0x07 {
            Operation::ReadDelayTimer
        } else if immediate == 0x15 {
            Operation::SetDelayTimer
        } else if immediate == 0x18 {
            Operation::SetSoundTimer
        } else if immediate == 0x1e {
            Operation::AddToIndex
        } else if immediate == 0x0a {
            Operation::WaitForKey
        } else if immediate == 0x29 {
            Operation::FontCharacter
        } else if immediate == 0x33 {
            Operation::BinaryToDecimal
        } else if immediate == 0x55 {
            Operation::StoreRegisters
        } else if immediate == 0x65 {
            Operation::LoadRegisters
        } else {
            Operation::Unsupported
        }
    }
}

/// The text that describes an instruction; empty where the instruction is not supported.
pub open spec fn disassembly(instruction: Instruction) -> Seq<char> {
    operation_text(operation(instruction), instruction)
}

/// The text that describes `operation` with the registers, the byte and the address that
/// `instruction` names.
pub open spec fn operation_text(operation: Operation, instruction: Instruction) -> Seq<char> {
    let x = decimal_text(instruction.register_x());
    let y = decimal_text(instruction.register_y());
    let n = hex_byte_text(instruction.low_nibble() as u8);
    let nn = hex_byte_text(instruction.immediate() as u8);
    let nnn = hex_word_text(instruction.address() as u16);
    match operation {
        Operation::ClearScreen => "clear screen"@,
        Operation::Return => "pop stack"@,
        Operation::Jump => "jump to "@ + nnn,
        Operation::Call => "push stack and jump to "@ + nnn,
        Operation::SkipIfEqualValue => "skip if "@ + nn + " == V"@ + x,
        Operation::SkipIfNotEqualValue => "skip if "@ + nn + " != V"@ + x,
        Operation::SkipIfEqual => "skip if V"@ + x + " == V"@ + y,
        Operation::SkipIfNotEqual => "skip if V"@ + x + " != V"@ + y,
        Operation::SetRegister => "V"@ + x + " = "@ + nn + " / "@ + decimal_text(
            instruction.immediate(),
        ),
        Operation::AddToRegister => "V"@ + x + " += "@ + nn + " / "@ + decimal_text(
            instruction.immediate(),
        ) + " wrapped"@,
        Operation::Assign => "V"@ + x + " = V"@ + y,
        Operation::Or => "V"@ + x + " = V"@ + x + " OR V"@ + y,
        Operation::And => "V"@ + x + " = V"@ + x + " AND V"@ + y,
        Operation::Xor => "V"@ + x + " = V"@ + x + " XOR V"@ + y,
        Operation::Add => "V"@ + x + " += V"@ + y + ", overflow in VF"@,
        Operation::Subtract => "V"@ + x + " -= V"@ + y + ", underflow in VF"@,
        Operation::ShiftRight => "V"@ + x + " = V"@ + y + " >> 1, overflow in VF"@,
        Operation::SubtractReversed => "V"@ + x + " = V"@ + y + " - V"@ + x
            + ", underflow in VF"@,
        Operation::ShiftLeft => "V"@ + x + " = V"@ + y + " << 1, overflow in VF"@,
        Operation::SetIndex => "I = "@ + nnn,
        Operation::JumpV0 => "jump V0 + "@ + nnn,
        Operation::Random => "V"@ + x + " = random AND "@ + nn,
        Operation::Draw => "display (V"@ + x + ", V"@ + y + ") -> 5x"@ + n + ", flip in VF"@,
        Operation::SkipIfPressed => "skip if key V"@ + x + " down"@,
        Operation::SkipIfNotPressed => "skip if key V"@ + x + " up"@,
        Operation::ReadDelayTimer => "V"@ + x + " = delay timer"@,
        Operation::SetDelayTimer => "set delay timer V"@ + x,
        Operation::SetSoundTimer => "set sound timer V"@ + x,
        Operation::AddToIndex => "I += V"@ + x,
        Operation::WaitForKey => "wait for any key down, set key to V"@ + x,
        Operation::FontCharacter => "I = font_start + V"@ + x,
        Operation::BinaryToDecimal => "Memory[I..I+2] = V"@ + x,
        Operation::StoreRegisters => "Memory[I..I + "@ + x + "] = V0..V"@ + x,
        Operation::LoadRegisters => "V0..V"@ + x + " = Memory[I..I + "@ + x + "]"@,
        Operation::Unsupported => Seq::empty(),
    }
}

/// All that the machine holds, as plain values.
#[verifier::ext_equal]
pub struct Machine {
    /// The address of the next instruction.
    pub program_counter: usize,
    /// The return addresses, the latest last.
    pub stack: Seq<usize>,
    /// The bytes of the memory.
    pub memory: Seq<u8>,
    /// The cells of the frame buffer, row by row.
    pub screen: Seq<Seq<bool>>,
    /// The sixteen registers V0 to VF.
    pub registers: Seq<u8>,
    /// The index register, I.
    pub index_register: usize,
    /// The delay timer.
    pub delay_timer: u8,
    /// The sound timer.
    pub sound_timer: u8,
}

/// What the frontend answered when the machine asked it.
pub struct Polled {
    /// The answer to the question whether the key that register X names is down.
    pub key_down: bool,
    /// The answer to the question which of the sixteen keys are down.
    pub keys: Seq<bool>,
    /// The random byte.
    pub random: u8,
}

/// The machine that the parts make up.
pub open spec fn machine_of(
    program_counter: ProgramCounter,
    stack: Stack,
    memory: Memory,
    screen_memory: ScreenMemory,
    variable_registers: VariableRegisters,
    index_register: usize,
    delay_timer: DelayTimer,
    sound_timer: SoundTimer,
) -> Machine {
    Machine {
        program_counter: program_counter@,
        stack: stack@,
        memory: memory@,
        screen: screen_memory@,
        registers: variable_registers@,
        index_register,
        delay_timer: delay_timer@,
        sound_timer: sound_timer@,
    }
}

/// A grid of the same size with every cell unset.
pub open spec fn cleared(grid: Seq<Seq<bool>>) -> Seq<Seq<bool>> {
    Seq::new(grid.len(), |row: int| Seq::new(grid[row].len(), |column: int| false))
}

/// The sum of two bytes, wrapped to a byte.
pub open spec fn wrapped_sum(a: u8, b: u8) -> u8 {
    ((a + b) % 256) as u8
}

/// The difference of two bytes, wrapped to a byte.
pub open spec fn wrapped_difference(a: u8, b: u8) -> u8 {
    ((a - b) % 256) as u8
}

/// The flag as a byte: 1 where it is raised, 0 where it is not.
pub open spec fn flag(raised: bool) -> u8 {
    if raised {
        1
    } else {
        0
    }
}

/// The registers after `value` went to register X and then `flag` to VF.
pub open spec fn with_result_and_flag(registers: Seq<u8>, x: int, value: u8, flag: u8) -> Seq<
    u8,
> {
    registers.update(x, value).update(FLAG_REGISTER as int, flag)
}

/// The machine after a skip that is taken where `taken` holds: the counter two bytes on.
/// Nothing where the counter cannot go on.
pub open spec fn skipped(machine: Machine, taken: bool) -> Option<Machine> {
    if !taken {
        Some(machine)
    } else if machine.program_counter + 2 <= usize::MAX {
        Some(Machine { program_counter: (machine.program_counter + 2) as usize, ..machine })
    } else {
        None
    }
}

/// The registers after the first `count` of them were read from `bytes`.
pub open spec fn registers_loaded(registers: Seq<u8>, bytes: Seq<u8>, count: int) -> Seq<u8> {
    Seq::new(
        registers.len(),
        |k: int|
            if k < count {
                bytes[k]
            } else {
                registers[k]
            },
    )
}

/// The three decimal digits of a byte: hundreds, tens, ones.
pub open spec fn decimal_digits(value: u8) -> Seq<u8> {
    seq![value / 100, value % 100 / 10, value % 10]
}

/// The machine after it has carried out `instruction`, or nothing where its state does
/// not allow the instruction or the instruction is not supported.
pub open spec fn step(
    instruction: Instruction,
    machine: Machine,
    font_start: usize,
    polled: Polled,
) -> Option<Machine> {
    perform(operation(instruction), instruction, machine, font_start, polled)
}

/// The machine after it has carried out `operation` with the registers, the byte and the
/// address that `instruction` names, or nothing where its state does not allow that.
pub open spec fn perform(
    operation: Operation,
    instruction: Instruction,
    machine: Machine,
    font_start: usize,
    polled: Polled,
) -> Option<Machine> {
    let x = instruction.register_x() as int;
    let y = instruction.register_y() as int;
    let low = instruction.low_nibble();
    let immediate = instruction.immediate() as u8;
    let address = instruction.address() as usize;
    let registers = machine.registers;
    let vx = registers[x];
    let vy = registers[y];
    let index = machine.index_register;
    match operation {
        Operation::ClearScreen => Some(Machine { screen: cleared(machine.screen), ..machine }),
        Operation::Return => if machine.stack.len() > 0 {
            Some(
                Machine {
                    program_counter: machine.stack.last(),
                    stack: machine.stack.drop_last(),
                    ..machine
                },
            )
        } else {
            None
        },
        Operation::Jump => Some(Machine { program_counter: address, ..machine }),
        Operation::Call => Some(
            Machine {
                program_counter: address,
                stack: machine.stack.push(machine.program_counter),
                ..machine
            },
        ),
        Operation::SkipIfEqualValue => skipped(machine, vx == immediate),
        Operation::SkipIfNotEqualValue => skipped(machine, vx != immediate),
        Operation::SkipIfEqual => skipped(machine, vx == vy),
        Operation::SkipIfNotEqual => skipped(machine, vx != vy),
        Operation::SetRegister => Some(
            Machine { registers: registers.update(x, immediate), ..machine },
        ),
        Operation::AddToRegister => Some(
            Machine { registers: registers.update(x, wrapped_sum(vx, immediate)), ..machine },
        ),
        Operation::Assign => Some(Machine { registers: registers.update(x, vy), ..machine }),
        Operation::Or => Some(Machine { registers: registers.update(x, vx | vy), ..machine }),
        Operation::And => Some(Machine { registers: registers.update(x, vx & vy), ..machine }),
        Operation::Xor => Some(Machine { registers: registers.update(x, vx ^ vy), ..machine }),
        Operation::Add => Some(
            Machine {
                registers: with_result_and_flag(
                    registers,
                    x,
                    wrapped_sum(vx, vy),
                    flag(vx + vy > 255),
                ),
                ..machine
            },
        ),
        Operation::Subtract => Some(
            Machine {
                registers: with_result_and_flag(
                    registers,
                    x,
                    wrapped_difference(vx, vy),
                    flag(vx >= vy),
                ),
                ..machine
            },
        ),
        Operation::ShiftRight => Some(
            Machine {
                registers: with_result_and_flag(registers, x, vy / 2, vy % 2),
                ..machine
            },
        ),
        Operation::SubtractReversed => Some(
            Machine {
                registers: with_result_and_flag(
                    registers,
                    x,
                    wrapped_difference(vy, vx),
                    flag(vy >= vx),
                ),
                ..machine
            },
        ),
        Operation::ShiftLeft => Some(
            Machine {
                registers: with_result_and_flag(registers, x, wrapped_sum(vy, vy), vy / 128),
                ..machine
            },
        ),
        Operation::SetIndex => Some(Machine { index_register: address, ..machine }),
        Operation::JumpV0 => Some(
            Machine { program_counter: (address + registers[0]) as usize, ..machine },
        ),
        Operation::Random => Some(
            Machine { registers: registers.update(x, polled.random & immediate), ..machine },
        ),
        Operation::Draw => {
            let lowered = registers.update(FLAG_REGISTER as int, 0);
            let sprite = machine.memory.subrange(index as int, index + low);
            if index + low <= machine.memory.len() {
                Some(
                    Machine {
                        screen: blit(machine.screen, lowered[x], lowered[y], sprite, low),
                        registers: lowered.update(
                            FLAG_REGISTER as int,
                            flag(collides(machine.screen, lowered[x], lowered[y], sprite, low)),
                        ),
                        ..machine
                    },
                )
            } else {
                None
            }
        },
        Operation::SkipIfPressed => skipped(machine, polled.key_down),
        Operation::SkipIfNotPressed => skipped(machine, !polled.key_down),
        Operation::ReadDelayTimer => Some(
            Machine { registers: registers.update(x, machine.delay_timer), ..machine },
        ),
        Operation::SetDelayTimer => Some(Machine { delay_timer: vx, ..machine }),
        Operation::SetSoundTimer => Some(Machine { sound_timer: vx, ..machine }),
        Operation::AddToIndex => if index + vx <= usize::MAX {
            Some(Machine { index_register: (index + vx) as usize, ..machine })
        } else {
            None
        },
        Operation::WaitForKey => match first_key_down(polled.keys) {
            Some(key) => Some(Machine { registers: registers.update(x, key as u8), ..machine }),
            None => if machine.program_counter >= 2 {
                Some(
                    Machine {
                        program_counter: (machine.program_counter - 2) as usize,
                        ..machine
                    },
                )
            } else {
                None
            },
        },
        Operation::FontCharacter => if font_start + (vx % 16) * 5 <= usize::MAX {
            Some(Machine { index_register: (font_start + (vx % 16) * 5) as usize, ..machine })
        } else {
            None
        },
        Operation::BinaryToDecimal => if index + 3 <= machine.memory.len() {
            Some(
                Machine {
                    memory: overwritten(machine.memory, index as int, decimal_digits(vx)),
                    ..machine
                },
            )
        } else {
            None
        },
        Operation::StoreRegisters => if index + x + 1 <= machine.memory.len() {
            Some(
                Machine {
                    memory: overwritten(machine.memory, index as int, registers.subrange(0, x + 1)),
                    ..machine
                },
            )
        } else {
            None
        },
        Operation::LoadRegisters => if index + x + 1 <= machine.memory.len() {
            Some(
                Machine {
                    registers: registers_loaded(
                        registers,
                        machine.memory.subrange(index as int, index + x + 1),
                        x + 1,
                    ),
                    ..machine
                },
            )
        } else {
            None
        },
        Operation::Unsupported => None,
    }
}

/// The text of every operation but `Unsupported` has at least one character.
pub proof fn lemma_operation_text_not_empty(operation: Operation, instruction: Instruction)
    requires
        !(operation is Unsupported),
    ensures
        operation_text(operation, instruction).len() > 0,
{
    reveal_strlit("clear screen");
    reveal_strlit("pop stack");
    reveal_strlit("jump to ");
    reveal_strlit("push stack and jump to ");
    reveal_strlit("skip if ");
    reveal_strlit("skip if V");
    reveal_strlit("V");
    reveal_strlit("I = ");
    reveal_strlit("jump V0 + ");
    reveal_strlit("display (V");
    reveal_strlit("skip if key V");
    reveal_strlit("set delay timer V");
    reveal_strlit("set sound timer V");
    reveal_strlit("I += V");
    reveal_strlit("wait for any key down, set key to V");
    reveal_strlit("I = font_start + V");
    reveal_strlit("Memory[I..I+2] = V");
    reveal_strlit("Memory[I..I + ");
    reveal_strlit("V0..V");
}

/// An answer of a frontend that was not asked: no key is down, and the byte is zero.
pub open spec fn nothing_polled() -> Polled {
    Polled { key_down: false, keys: Seq::new(16, |key: int| false), random: 0 }
}

} // verus!
