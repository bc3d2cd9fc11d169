use chip8_base::cpu::{
    add_to_register, clear_screen, jump, pop_stack, push_stack, set_register, ExecuteResult,
};
use chip8_base::traits;
use chip8_base::{
    Instruction, Interpreter, ProgramCounter, ScreenMemory, Stack, VariableRegisters,
};
use std::slice::Iter;

struct MockRenderer {}

impl traits::Renderer for MockRenderer {
    fn render(&mut self, _memory: Iter<Vec<bool>>) -> Result<(), &'static str> {
        Ok(())
    }
}

struct MockKeypad {}

impl traits::Keypad for MockKeypad {
    fn state(&self) -> [bool; 16] {
        [false; 16]
    }

    fn key_state(&self, _key_index: usize) -> bool {
        false
    }
}

struct MockRandom {}

impl traits::Random for MockRandom {
    fn value(&mut self) -> u8 {
        0
    }
}

fn assert_execution_result(result: ExecuteResult) {
    match result {
        Ok(value) => {
            assert_ne!(value.instruction_disassembly.len(), 0);
        }
        Err(error) => {
            panic!("{}", error.to_string());
        }
    }
}

fn is_empty(screen_memory: &ScreenMemory) -> bool {
    for value in screen_memory.iter() {
        if value[0] {
            return false;
        }
    }
    return true;
}

#[test]
fn clear_screen_test() {
    let mut screen_memory = ScreenMemory::new(10, 10);
    traits::ScreenMemory::display(&mut screen_memory, 0, 0, &[0xff, 0x13, 0x53, 0x5a], 4);

    assert_eq!(is_empty(&screen_memory), false);

    let _ = clear_screen(false, &mut screen_memory);

    assert_eq!(is_empty(&screen_memory), false);

    let _ = clear_screen(true, &mut screen_memory);

    assert_eq!(is_empty(&screen_memory), true);
}

#[test]
fn push_stack_test() {
    let mut stack = Stack::new();
    let mut program_counter = ProgramCounter::new();

    assert_eq!(stack.is_empty(), true);
    assert_eq!(traits::ProgramCounter::get_position(&program_counter), 0);

    let _ = push_stack(false, Instruction::new(0x01, 0x23), &mut stack, &mut program_counter);

    assert_eq!(stack.is_empty(), true);
    assert_eq!(traits::ProgramCounter::get_position(&program_counter), 0);

    let _ = push_stack(true, Instruction::new(0x01, 0x23), &mut stack, &mut program_counter);

    assert_eq!(stack.is_empty(), false);
    assert_eq!(traits::Stack::pop(&mut stack), Some(0x0));

    assert_eq!(traits::ProgramCounter::get_position(&program_counter), 0x0123);

    let _ = push_stack(true, Instruction::new(0x14, 0x56), &mut stack, &mut program_counter);

    assert_eq!(stack.is_empty(), false);
    assert_eq!(traits::Stack::pop(&mut stack), Some(0x0123));

    assert_eq!(traits::ProgramCounter::get_position(&program_counter), 0x0456);
}

#[test]
fn pop_stack_test() {
    let mut stack = Stack::new();
    let mut program_counter = ProgramCounter::new();

    assert_eq!(stack.is_empty(), true);
    assert_eq!(traits::ProgramCounter::get_position(&program_counter), 0);

    let first_program_counter_position = traits::ProgramCounter::get_position(&program_counter);

    let _ = push_stack(true, Instruction::new(0x01, 0x23), &mut stack, &mut program_counter);

    let _ = push_stack(true, Instruction::new(0x14, 0x56), &mut stack, &mut program_counter);

    let pre_pop_program_counter_position =
        traits::ProgramCounter::get_position(&program_counter);

    assert_eq!(stack.is_empty(), false);

    let _ = pop_stack(false, Instruction::new(0x00, 0x00), &mut stack, &mut program_counter);

    assert_eq!(
        pre_pop_program_counter_position,
        traits::ProgramCounter::get_position(&program_counter)
    );

    let _ = pop_stack(false, Instruction::new(0x00, 0x00), &mut stack, &mut program_counter);

    assert_eq!(stack.is_empty(), false);

    let _ = pop_stack(true, Instruction::new(0x00, 0x00), &mut stack, &mut program_counter);

    assert_eq!(0x0123, traits::ProgramCounter::get_position(&program_counter));

    assert_eq!(stack.is_empty(), false);

    let _ = pop_stack(true, Instruction::new(0x00, 0x00), &mut stack, &mut program_counter);

    assert_eq!(
        first_program_counter_position,
        traits::ProgramCounter::get_position(&program_counter)
    );

    assert_eq!(stack.is_empty(), true);
}

#[test]
fn jump_test() {
    let mut program_counter = ProgramCounter::new();

    let original_program_counter_position =
        traits::ProgramCounter::get_position(&program_counter);

    let _ = jump(false, Instruction::new(0x01, 0x23), &mut program_counter);

    assert_eq!(
        original_program_counter_position,
        traits::ProgramCounter::get_position(&program_counter)
    );

    let _ = jump(true, Instruction::new(0x01, 0x23), &mut program_counter);

    assert_eq!(0x0123, traits::ProgramCounter::get_position(&program_counter));
}

fn test_set_variable_register_at_index(index: u8, variable_registers: &mut VariableRegisters) {
    let original_value = variable_registers.get(index);

    let nn: u8 = 0x12;
    let instruction = Instruction::new(index, nn);

    let _ = set_register(false, instruction, variable_registers);

    assert_eq!(original_value, variable_registers.get(index));

    let _ = set_register(true, instruction, variable_registers);

    assert_eq!(Some(nn), variable_registers.get(index));
}

#[test]
fn set_register_test() {
    let mut variable_registers = VariableRegisters::new();

    test_set_variable_register_at_index(0, &mut variable_registers);

    test_set_variable_register_at_index(5, &mut variable_registers);
}

fn test_add_to_register_at_index(index: u8, variable_registers: &mut VariableRegisters) {
    let original_value = variable_registers.get(index);

    let nn: u8 = 0x12;
    let instruction = Instruction::new(index, nn);

    let _ = add_to_register(false, instruction, variable_registers);

    assert_eq!(original_value, variable_registers.get(index));

    let _ = add_to_register(true, instruction, variable_registers);

    assert_eq!(Some(nn), variable_registers.get(index));

    let _ = add_to_register(true, instruction, variable_registers);

    assert_eq!(Some(nn * 2), variable_registers.get(index));

    for _ in 0..15 {
        let _ = add_to_register(true, instruction, variable_registers);
    }

    assert_eq!(Some(nn.wrapping_mul(17)), variable_registers.get(index));
}

#[test]
fn add_to_register_test() {
    let mut variable_registers = VariableRegisters::new();

    test_add_to_register_at_index(3, &mut variable_registers);

    test_add_to_register_at_index(8, &mut variable_registers);
}

#[test]
fn cpu_clear_screen_test() {
    let instruction = Instruction::new(0x00, 0xe0);

    let mut interpreter =
        Interpreter::new_crate_defaults(MockRenderer {}, MockKeypad {}, MockRandom {});
    let mut bus = interpreter.create_bus();
    let font_start: usize = 200;

    traits::ScreenMemory::display(bus.screen_memory, 0, 0, &[0xff, 0x13, 0x53, 0x5a], 4);

    assert_eq!(bus.screen_memory.is_empty(), false);

    let result = bus.execute(false, instruction, font_start);
    assert_execution_result(result);

    assert_eq!(bus.screen_memory.is_empty(), false);

    let result = bus.execute(true, instruction, font_start);
    assert_execution_result(result);

    assert_eq!(bus.screen_memory.is_empty(), true);
}

#[test]
fn cpu_pop_stack_test() {
    let instruction = Instruction::new(0x00, 0xee);

    let mut interpreter =
        Interpreter::new_crate_defaults(MockRenderer {}, MockKeypad {}, MockRandom {});
    let mut bus = interpreter.create_bus();
    let font_start: usize = 200;

    assert_eq!(bus.stack.is_empty(), true);
    assert_eq!(traits::ProgramCounter::get_position(bus.program_counter), 0);

    let first_program_counter_position = traits::ProgramCounter::get_position(bus.program_counter);

    let _ = bus.execute(true, Instruction::new(0x21, 0x23), font_start);
    let _ = bus.execute(true, Instruction::new(0x24, 0x56), font_start);

    let pre_pop_program_counter_position =
        traits::ProgramCounter::get_position(bus.program_counter);

    assert_eq!(bus.stack.is_empty(), false);

    let result = bus.execute(false, instruction, font_start);
    assert_execution_result(result);

    assert_eq!(
        pre_pop_program_counter_position,
        traits::ProgramCounter::get_position(bus.program_counter)
    );

    let result = bus.execute(false, instruction, font_start);
    assert_execution_result(result);

    assert_eq!(bus.stack.is_empty(), false);

    let result = bus.execute(true, instruction, font_start);
    assert_execution_result(result);

    assert_eq!(0x0123, traits::ProgramCounter::get_position(bus.program_counter));

    assert_eq!(bus.stack.is_empty(), false);

    let result = bus.execute(true, instruction, font_start);
    assert_execution_result(result);

    assert_eq!(
        first_program_counter_position,
        traits::ProgramCounter::get_position(bus.program_counter)
    );

    assert_eq!(bus.stack.is_empty(), true);
}
