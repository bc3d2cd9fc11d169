use chip8_base::cpu::{
    add_to_x_value_of_y, display, execute, execute_given, key_of_register_x,
    set_register_random, set_register_random_value,
    skip_if_not_pressed_given, skip_if_pressed_given, subtract_to_x_value_of_y,
    wait_for_key_given, ExecuteResult,
};
use chip8_base::traits;
use chip8_base::{
    DelayTimer, Font, Instruction, InstructionError, Keypad, Memory, ProgramCounter, Random,
    ScreenMemory, SoundTimer, Stack, VariableRegisters,
};

struct FixedRandom {
    next: u8,
    drawn: usize,
}

impl traits::Random for FixedRandom {
    fn value(&mut self) -> u8 {
        self.drawn += 1;
        self.next
    }
}

struct Parts {
    program_counter: ProgramCounter,
    stack: Stack,
    memory: Memory,
    screen_memory: ScreenMemory,
    variable_registers: VariableRegisters,
    keypad: Keypad,
    index_register: usize,
    delay_timer: DelayTimer,
    sound_timer: SoundTimer,
    random: FixedRandom,
    font_start: usize,
}

impl Parts {
    fn new() -> Parts {
        Parts {
            program_counter: ProgramCounter::new(),
            stack: Stack::new(),
            memory: Memory::new_chip8(),
            screen_memory: ScreenMemory::new_chip8(),
            variable_registers: VariableRegisters::new(),
            keypad: Keypad::new(),
            index_register: 0,
            delay_timer: DelayTimer::new(),
            sound_timer: SoundTimer::new(),
            random: FixedRandom { next: 0xa5, drawn: 0 },
            font_start: 0x50,
        }
    }

    fn run(&mut self, apply: bool, first: u8, second: u8) -> ExecuteResult {
        execute(
            apply,
            Instruction::new(first, second),
            &mut self.program_counter,
            &mut self.stack,
            &mut self.memory,
            &mut self.screen_memory,
            &mut self.variable_registers,
            &self.keypad,
            &mut self.index_register,
            &mut self.delay_timer,
            &mut self.sound_timer,
            &mut self.random,
            self.font_start,
        )
    }

    fn text(&mut self, apply: bool, first: u8, second: u8) -> String {
        match self.run(apply, first, second) {
            Ok(state) => state.instruction_disassembly,
            Err(error) => panic!("{}", error.to_string()),
        }
    }

    fn position(&self) -> usize {
        traits::ProgramCounter::get_position(&self.program_counter)
    }

    fn register(&self, index: u8) -> u8 {
        self.variable_registers.get(index).unwrap()
    }

    fn set(&mut self, index: u8, value: u8) {
        assert!(self.variable_registers.set(index, value).is_ok());
    }

    fn everything(&self) -> (usize, bool, Vec<u8>, Vec<Vec<bool>>, [u8; 16], usize, u8, u8) {
        (
            self.position(),
            self.stack.is_empty(),
            traits::Memory::dump(&self.memory),
            self.screen_memory.rows().clone(),
            self.variable_registers.get_all(),
            self.index_register,
            traits::Timer::get(&self.delay_timer),
            traits::Timer::get(&self.sound_timer),
        )
    }
}

fn is_failed(result: ExecuteResult, first: u8, second: u8) -> bool {
    match result {
        Err(InstructionError::InstructionExecuteError(instruction)) => {
            instruction.to_string() == Instruction::new(first, second).to_string()
        }
        _ => false,
    }
}

fn is_unsupported(result: ExecuteResult, first: u8, second: u8) -> bool {
    match result {
        Err(InstructionError::UnsupportedInstructionError(instruction)) => {
            instruction.to_string() == Instruction::new(first, second).to_string()
        }
        _ => false,
    }
}

#[test]
fn add_with_carry_sets_flag() {
    let mut registers = VariableRegisters::new();
    registers.set(1, 0xff).unwrap();
    registers.set(2, 0x01).unwrap();
    let result = add_to_x_value_of_y(true, Instruction::new(0x81, 0x24), &mut registers);
    assert!(result.is_ok());
    assert_eq!(registers.get(1), Some(0x00));
    assert_eq!(registers.get(0x0f), Some(1));
}

#[test]
fn add_without_carry_writes_sum_and_clears_flag() {
    let mut parts = Parts::new();
    parts.set(1, 0x10);
    parts.set(2, 0x22);
    parts.set(0xf, 7);
    assert_eq!(parts.text(true, 0x81, 0x24), "V1 += V2, overflow in VF");
    assert_eq!(parts.register(1), 0x32);
    assert_eq!(parts.register(2), 0x22);
    assert_eq!(parts.register(0xf), 0);
}

#[test]
fn add_into_flag_register_keeps_the_flag() {
    let mut parts = Parts::new();
    parts.set(0xf, 0xf0);
    parts.set(2, 0x20);
    parts.text(true, 0x8f, 0x24);
    assert_eq!(parts.register(0xf), 1);
}

#[test]
fn subtract_with_borrow_clears_flag() {
    let mut registers = VariableRegisters::new();
    registers.set(1, 0x01).unwrap();
    registers.set(2, 0x02).unwrap();
    let result = subtract_to_x_value_of_y(true, Instruction::new(0x81, 0x25), &mut registers);
    assert!(result.is_ok());
    assert_eq!(registers.get(1), Some(0xff));
    assert_eq!(registers.get(0x0f), Some(0));
}

#[test]
fn subtract_without_borrow_sets_flag() {
    let mut parts = Parts::new();
    parts.set(1, 0x30);
    parts.set(2, 0x10);
    assert_eq!(parts.text(true, 0x81, 0x25), "V1 -= V2, underflow in VF");
    assert_eq!(parts.register(1), 0x20);
    assert_eq!(parts.register(0xf), 1);
    parts.set(1, 0x10);
    parts.set(2, 0x10);
    parts.text(true, 0x81, 0x25);
    assert_eq!(parts.register(1), 0);
    assert_eq!(parts.register(0xf), 1);
}

#[test]
fn reverse_subtract_takes_x_from_y() {
    let mut parts = Parts::new();
    parts.set(1, 0x10);
    parts.set(2, 0x30);
    assert_eq!(parts.text(true, 0x81, 0x27), "V1 = V2 - V1, underflow in VF");
    assert_eq!(parts.register(1), 0x20);
    assert_eq!(parts.register(0xf), 1);
    parts.set(1, 0x31);
    parts.set(2, 0x30);
    parts.text(true, 0x81, 0x27);
    assert_eq!(parts.register(1), 0xff);
    assert_eq!(parts.register(0xf), 0);
}

#[test]
fn shift_right_moves_y_into_x_and_keeps_the_low_bit() {
    let mut parts = Parts::new();
    parts.set(2, 0b1000_0101);
    assert_eq!(parts.text(true, 0x81, 0x26), "V1 = V2 >> 1, overflow in VF");
    assert_eq!(parts.register(1), 0b0100_0010);
    assert_eq!(parts.register(2), 0b1000_0101);
    assert_eq!(parts.register(0xf), 1);
    parts.set(2, 0b0000_0100);
    parts.text(true, 0x81, 0x26);
    assert_eq!(parts.register(1), 0b0000_0010);
    assert_eq!(parts.register(0xf), 0);
}

#[test]
fn shift_left_moves_y_into_x_and_keeps_the_high_bit() {
    let mut parts = Parts::new();
    parts.set(2, 0b1000_0101);
    assert_eq!(parts.text(true, 0x81, 0x2e), "V1 = V2 << 1, overflow in VF");
    assert_eq!(parts.register(1), 0b0000_1010);
    assert_eq!(parts.register(0xf), 1);
    parts.set(2, 0b0100_0101);
    parts.text(true, 0x81, 0x2e);
    assert_eq!(parts.register(1), 0b1000_1010);
    assert_eq!(parts.register(0xf), 0);
}

#[test]
fn bitwise_operations_leave_the_flag() {
    let mut parts = Parts::new();
    parts.set(0xf, 9);
    parts.set(3, 0b1100);
    parts.set(4, 0b1010);
    assert_eq!(parts.text(true, 0x83, 0x41), "V3 = V3 OR V4");
    assert_eq!(parts.register(3), 0b1110);
    parts.set(3, 0b1100);
    assert_eq!(parts.text(true, 0x83, 0x42), "V3 = V3 AND V4");
    assert_eq!(parts.register(3), 0b1000);
    parts.set(3, 0b1100);
    assert_eq!(parts.text(true, 0x83, 0x43), "V3 = V3 XOR V4");
    assert_eq!(parts.register(3), 0b0110);
    assert_eq!(parts.text(true, 0x83, 0x40), "V3 = V4");
    assert_eq!(parts.register(3), 0b1010);
    assert_eq!(parts.register(0xf), 9);
}

#[test]
fn set_and_add_immediate() {
    let mut parts = Parts::new();
    assert_eq!(parts.text(true, 0x6a, 0xfe), "V10 = 0xfe / 254");
    assert_eq!(parts.register(10), 0xfe);
    assert_eq!(parts.text(true, 0x7a, 0x05), "V10 += 0x05 / 5 wrapped");
    assert_eq!(parts.register(10), 0x03);
    assert_eq!(parts.register(0xf), 0);
}

#[test]
fn jumps_and_calls() {
    let mut parts = Parts::new();
    assert_eq!(parts.text(true, 0x12, 0x34), "jump to 0x0234");
    assert_eq!(parts.position(), 0x234);
    assert_eq!(parts.text(true, 0x2a, 0xbc), "push stack and jump to 0x0abc");
    assert_eq!(parts.position(), 0xabc);
    assert_eq!(parts.text(true, 0x00, 0xee), "pop stack");
    assert_eq!(parts.position(), 0x234);
    assert!(parts.stack.is_empty());
    parts.set(0, 0x10);
    assert_eq!(parts.text(true, 0xb3, 0x00), "jump V0 + 0x0300");
    assert_eq!(parts.position(), 0x310);
}

#[test]
fn return_on_empty_stack_fails_and_changes_nothing() {
    let mut parts = Parts::new();
    parts.text(true, 0x12, 0x00);
    let before = parts.everything();
    let result = parts.run(true, 0x00, 0xee);
    assert!(is_failed(result, 0x00, 0xee));
    assert_eq!(parts.everything(), before);
}

#[test]
fn skips_on_values_and_registers() {
    let mut parts = Parts::new();
    parts.set(1, 0x42);
    parts.set(2, 0x42);
    parts.set(3, 0x43);
    assert_eq!(parts.text(true, 0x31, 0x42), "skip if 0x42 == V1");
    assert_eq!(parts.position(), 2);
    parts.text(true, 0x31, 0x41);
    assert_eq!(parts.position(), 2);
    assert_eq!(parts.text(true, 0x41, 0x41), "skip if 0x41 != V1");
    assert_eq!(parts.position(), 4);
    parts.text(true, 0x41, 0x42);
    assert_eq!(parts.position(), 4);
    assert_eq!(parts.text(true, 0x51, 0x20), "skip if V1 == V2");
    assert_eq!(parts.position(), 6);
    parts.text(true, 0x51, 0x30);
    assert_eq!(parts.position(), 6);
    assert_eq!(parts.text(true, 0x91, 0x30), "skip if V1 != V3");
    assert_eq!(parts.position(), 8);
    parts.text(true, 0x91, 0x20);
    assert_eq!(parts.position(), 8);
}

#[test]
fn skip_at_the_last_address_fails() {
    let mut parts = Parts::new();
    traits::ProgramCounter::set_position(&mut parts.program_counter, usize::MAX - 1);
    parts.set(1, 7);
    let result = parts.run(true, 0x31, 0x07);
    assert!(is_failed(result, 0x31, 0x07));
    assert_eq!(parts.position(), usize::MAX - 1);
    assert!(parts.run(true, 0x31, 0x08).is_ok());
    assert_eq!(parts.position(), usize::MAX - 1);
}

#[test]
fn index_register_operations() {
    let mut parts = Parts::new();
    assert_eq!(parts.text(true, 0xa1, 0x23), "I = 0x0123");
    assert_eq!(parts.index_register, 0x123);
    parts.set(4, 0xff);
    assert_eq!(parts.text(true, 0xf4, 0x1e), "I += V4");
    assert_eq!(parts.index_register, 0x222);
    assert_eq!(parts.register(0xf), 0);
    parts.set(5, 0x3c);
    assert_eq!(parts.text(true, 0xf5, 0x29), "I = font_start + V5");
    assert_eq!(parts.index_register, 0x50 + 0xc * 5);
}

#[test]
fn add_to_index_beyond_the_last_address_fails() {
    let mut parts = Parts::new();
    parts.index_register = usize::MAX - 1;
    parts.set(4, 2);
    let result = parts.run(true, 0xf4, 0x1e);
    assert!(is_failed(result, 0xf4, 0x1e));
    assert_eq!(parts.index_register, usize::MAX - 1);
    parts.set(4, 1);
    assert!(parts.run(true, 0xf4, 0x1e).is_ok());
    assert_eq!(parts.index_register, usize::MAX);
}

#[test]
fn font_character_beyond_the_last_address_fails() {
    let mut parts = Parts::new();
    parts.font_start = usize::MAX - 4;
    parts.set(5, 1);
    let result = parts.run(true, 0xf5, 0x29);
    assert!(is_failed(result, 0xf5, 0x29));
    assert_eq!(parts.index_register, 0);
    parts.set(5, 0x10);
    assert!(parts.run(true, 0xf5, 0x29).is_ok());
    assert_eq!(parts.index_register, usize::MAX - 4);
}

#[test]
fn timers_are_read_and_set() {
    let mut parts = Parts::new();
    parts.set(1, 0x33);
    assert_eq!(parts.text(true, 0xf1, 0x15), "set delay timer V1");
    assert_eq!(traits::Timer::get(&parts.delay_timer), 0x33);
    assert_eq!(traits::Timer::get(&parts.sound_timer), 0);
    parts.set(2, 0x44);
    assert_eq!(parts.text(true, 0xf2, 0x18), "set sound timer V2");
    assert_eq!(traits::Timer::get(&parts.sound_timer), 0x44);
    assert_eq!(parts.text(true, 0xf7, 0x07), "V7 = delay timer");
    assert_eq!(parts.register(7), 0x33);
}

#[test]
fn binary_to_decimal_writes_three_digits() {
    let mut parts = Parts::new();
    parts.set(3, 254);
    parts.index_register = 0x300;
    assert_eq!(parts.text(true, 0xf3, 0x33), "Memory[I..I+2] = V3");
    let memory = traits::Memory::dump(&parts.memory);
    assert_eq!(&memory[0x300..0x303], &[2, 5, 4]);
    assert_eq!(memory[0x2ff], 0);
    assert_eq!(memory[0x303], 0);
    parts.set(3, 7);
    parts.text(true, 0xf3, 0x33);
    assert_eq!(&traits::Memory::dump(&parts.memory)[0x300..0x303], &[0, 0, 7]);
}

#[test]
fn binary_to_decimal_behind_the_memory_fails_and_changes_nothing() {
    let mut parts = Parts::new();
    parts.set(3, 254);
    parts.index_register = 4094;
    let before = parts.everything();
    let result = parts.run(true, 0xf3, 0x33);
    assert!(is_failed(result, 0xf3, 0x33));
    assert_eq!(parts.everything(), before);
    parts.index_register = 4093;
    assert!(parts.run(true, 0xf3, 0x33).is_ok());
    assert_eq!(&traits::Memory::dump(&parts.memory)[4093..], &[2, 5, 4]);
}

#[test]
fn registers_go_to_memory_and_back() {
    let mut parts = Parts::new();
    for index in 0..16 {
        parts.set(index, 0x10 + index);
    }
    parts.index_register = 0x400;
    assert_eq!(parts.text(true, 0xf3, 0x55), "Memory[I..I + 3] = V0..V3");
    let memory = traits::Memory::dump(&parts.memory);
    assert_eq!(&memory[0x400..0x405], &[0x10, 0x11, 0x12, 0x13, 0]);
    assert_eq!(parts.index_register, 0x400);

    parts.variable_registers.reset();
    parts.set(5, 0x77);
    assert_eq!(parts.text(true, 0xf2, 0x65), "V0..V2 = Memory[I..I + 2]");
    assert_eq!(parts.register(0), 0x10);
    assert_eq!(parts.register(1), 0x11);
    assert_eq!(parts.register(2), 0x12);
    assert_eq!(parts.register(3), 0);
    assert_eq!(parts.register(5), 0x77);
    assert_eq!(parts.index_register, 0x400);
}

#[test]
fn register_transfer_behind_the_memory_fails_and_changes_nothing() {
    let mut parts = Parts::new();
    parts.set(0, 1);
    parts.set(1, 2);
    parts.index_register = 4095;
    let before = parts.everything();
    let result = parts.run(true, 0xf1, 0x55);
    assert!(is_failed(result, 0xf1, 0x55));
    assert_eq!(parts.everything(), before);
    let result = parts.run(true, 0xf1, 0x65);
    assert!(is_failed(result, 0xf1, 0x65));
    assert_eq!(parts.everything(), before);
    assert!(parts.run(true, 0xf0, 0x55).is_ok());
    assert_eq!(traits::Memory::dump(&parts.memory)[4095], 1);
}

#[test]
fn random_byte_is_masked() {
    let mut parts = Parts::new();
    assert_eq!(parts.text(true, 0xc1, 0x0f), "V1 = random AND 0x0f");
    assert_eq!(parts.register(1), 0x05);
    assert_eq!(parts.random.drawn, 1);
    parts.text(false, 0xc2, 0xff);
    assert_eq!(parts.register(2), 0);
    assert_eq!(parts.random.drawn, 1);
}

#[test]
fn random_value_given_is_masked() {
    let mut registers = VariableRegisters::new();
    let result =
        set_register_random_value(true, Instruction::new(0xc3, 0xf0), &mut registers, 0x5a);
    assert!(result.is_ok());
    assert_eq!(registers.get(3), Some(0x50));
    let result =
        set_register_random_value(false, Instruction::new(0xc3, 0xf0), &mut registers, 0xff);
    assert!(result.is_ok());
    assert_eq!(registers.get(3), Some(0x50));
}

#[test]
fn seeded_generator_is_masked_too() {
    let mut registers = VariableRegisters::new();
    let mut random = Random::new();
    for _ in 0..64 {
        let result =
            set_register_random(true, Instruction::new(0xc3, 0x3c), &mut registers, &mut random);
        assert!(result.is_ok());
        assert_eq!(registers.get(3).unwrap() & !0x3c, 0);
    }
}

#[test]
fn skips_on_keys() {
    let mut parts = Parts::new();
    parts.set(1, 0xa);
    assert_eq!(parts.text(true, 0xe1, 0x9e), "skip if key V1 down");
    assert_eq!(parts.position(), 0);
    assert_eq!(parts.text(true, 0xe1, 0xa1), "skip if key V1 up");
    assert_eq!(parts.position(), 2);
    assert!(parts.keypad.set_key_state(0xa, true));
    parts.text(true, 0xe1, 0x9e);
    assert_eq!(parts.position(), 4);
    parts.text(true, 0xe1, 0xa1);
    assert_eq!(parts.position(), 4);
    parts.set(1, 0x1a);
    parts.text(true, 0xe1, 0x9e);
    assert_eq!(parts.position(), 4);
}

#[test]
fn skips_on_given_key_states() {
    let mut program_counter = ProgramCounter::new();
    let instruction = Instruction::new(0xe1, 0x9e);
    assert!(skip_if_pressed_given(true, instruction, false, &mut program_counter).is_ok());
    assert_eq!(traits::ProgramCounter::get_position(&program_counter), 0);
    assert!(skip_if_pressed_given(false, instruction, true, &mut program_counter).is_ok());
    assert_eq!(traits::ProgramCounter::get_position(&program_counter), 0);
    assert!(skip_if_pressed_given(true, instruction, true, &mut program_counter).is_ok());
    assert_eq!(traits::ProgramCounter::get_position(&program_counter), 2);
    assert!(skip_if_not_pressed_given(true, instruction, true, &mut program_counter).is_ok());
    assert_eq!(traits::ProgramCounter::get_position(&program_counter), 2);
    assert!(skip_if_not_pressed_given(true, instruction, false, &mut program_counter).is_ok());
    assert_eq!(traits::ProgramCounter::get_position(&program_counter), 4);
}

#[test]
fn wait_for_key_rewinds_until_a_key_is_down() {
    let mut parts = Parts::new();
    traits::ProgramCounter::set_position(&mut parts.program_counter, 0x202);
    assert_eq!(parts.text(true, 0xf6, 0x0a), "wait for any key down, set key to V6");
    assert_eq!(parts.position(), 0x200);
    assert_eq!(parts.register(6), 0);

    traits::ProgramCounter::set_position(&mut parts.program_counter, 0x202);
    parts.keypad.set_key_state(9, true);
    parts.keypad.set_key_state(4, true);
    parts.text(true, 0xf6, 0x0a);
    assert_eq!(parts.position(), 0x202);
    assert_eq!(parts.register(6), 4);
}

#[test]
fn wait_for_key_at_the_first_address_fails() {
    let mut registers = VariableRegisters::new();
    let mut program_counter = ProgramCounter::new();
    traits::ProgramCounter::set_position(&mut program_counter, 1);
    let instruction = Instruction::new(0xf6, 0x0a);
    let result =
        wait_for_key_given(true, instruction, [false; 16], &mut registers, &mut program_counter);
    assert!(is_failed(result, 0xf6, 0x0a));
    assert_eq!(traits::ProgramCounter::get_position(&program_counter), 1);
    let mut keys = [false; 16];
    keys[15] = true;
    let result = wait_for_key_given(true, instruction, keys, &mut registers, &mut program_counter);
    assert!(result.is_ok());
    assert_eq!(registers.get(6), Some(15));
    assert_eq!(traits::ProgramCounter::get_position(&program_counter), 1);
}

#[test]
fn draw_sets_and_erases() {
    let mut parts = Parts::new();
    assert!(Font::new().apply(&mut parts.memory, 0x50).is_ok());
    parts.set(0, 3);
    parts.set(1, 2);
    parts.set(0xf, 9);
    parts.index_register = 0x50 + 5;
    assert_eq!(parts.text(true, 0xd0, 0x15), "display (V0, V1) -> 5x0x05, flip in VF");
    assert_eq!(parts.register(0xf), 0);
    let rows = parts.screen_memory.rows().clone();
    let glyph = [0x20u8, 0x60, 0x20, 0x20, 0x70];
    for row in 0..32 {
        for column in 0..64 {
            let expected = row >= 2
                && row < 7
                && column >= 3
                && column < 11
                && glyph[row - 2] & (0x80 >> (column - 3)) != 0;
            assert_eq!(rows[row][column], expected);
        }
    }
    parts.text(true, 0xd0, 0x15);
    assert_eq!(parts.register(0xf), 1);
    assert!(parts.screen_memory.is_empty());
}

#[test]
fn draw_reads_its_place_after_the_flag_is_lowered() {
    let mut parts = Parts::new();
    traits::Memory::set(&mut parts.memory, 0x300, 0x80).unwrap();
    parts.index_register = 0x300;
    parts.set(0xf, 5);
    parts.set(1, 1);
    parts.text(true, 0xdf, 0x11);
    let rows = parts.screen_memory.rows();
    assert!(rows[1][0]);
    assert!(!rows[1][5]);
}

#[test]
fn draw_behind_the_memory_fails_and_changes_nothing() {
    let mut parts = Parts::new();
    parts.set(0xf, 9);
    parts.index_register = 4095;
    let before = parts.everything();
    let result = parts.run(true, 0xd0, 0x02);
    assert!(is_failed(result, 0xd0, 0x02));
    assert_eq!(parts.everything(), before);
    assert!(parts.run(true, 0xd0, 0x01).is_ok());
    assert_eq!(parts.register(0xf), 0);
}

#[test]
fn draw_on_a_buffer_without_cells_draws_nothing() {
    let mut registers = VariableRegisters::new();
    registers.set(0xf, 3).unwrap();
    let mut memory = Memory::new(16);
    traits::Memory::set(&mut memory, 0, 0xff).unwrap();
    let instruction = Instruction::new(0xd0, 0x01);
    for (width, height) in [(0, 4), (4, 0), (0, 0)] {
        let mut screen_memory = ScreenMemory::new(width, height);
        let result = display(true, instruction, &0, &mut registers, &memory, &mut screen_memory);
        assert!(result.is_ok());
        assert_eq!(registers.get(0xf), Some(0));
        assert_eq!(screen_memory.rows(), &vec![vec![false; width]; height]);
    }
}

#[test]
fn unsupported_instructions_are_reported() {
    let unsupported: [(u8, u8); 10] = [
        (0x00, 0x00),
        (0x01, 0xe0),
        (0x0f, 0xee),
        (0x81, 0x28),
        (0x81, 0x2f),
        (0xe1, 0x9f),
        (0xe1, 0x00),
        (0xf1, 0x00),
        (0xf1, 0x66),
        (0xf1, 0x16),
    ];
    for (first, second) in unsupported {
        for apply in [false, true] {
            let mut parts = Parts::new();
            parts.text(true, 0x22, 0x00);
            let before = parts.everything();
            let result = parts.run(apply, first, second);
            assert!(is_unsupported(result, first, second));
            assert_eq!(parts.everything(), before);
        }
    }
}

#[test]
fn error_texts_name_the_instruction() {
    let mut parts = Parts::new();
    match parts.run(true, 0x00, 0xee) {
        Err(error) => {
            assert_eq!(error.to_string(), "could not execute instruction 0x00ee");
            assert_eq!(error.instruction().to_string(), "0x00ee");
        }
        Ok(_) => panic!("an empty stack cannot be popped"),
    }
    match parts.run(true, 0xf1, 0xff) {
        Err(error) => assert_eq!(error.to_string(), "unsupported instruction 0xf1ff"),
        Ok(_) => panic!("0xf1ff is no instruction"),
    }
}

#[test]
fn dry_run_changes_nothing_and_describes_every_instruction() {
    let mut parts = Parts::new();
    assert!(Font::new().apply(&mut parts.memory, 0x50).is_ok());
    parts.text(true, 0x22, 0x02);
    parts.text(true, 0xa0, 0x50);
    parts.text(true, 0xd0, 0x05);
    for index in 0..16 {
        parts.set(index, 0xf0 + index);
    }
    parts.keypad.set_key_state(3, true);
    let before = parts.everything();
    let mut described = 0;
    for first in 0..=255u8 {
        for second in 0..=255u8 {
            match parts.run(false, first, second) {
                Ok(state) => {
                    assert!(!state.instruction_disassembly.is_empty());
                    described += 1;
                }
                Err(error) => {
                    assert!(is_unsupported(Err(error), first, second));
                }
            }
        }
    }
    assert_eq!(parts.everything(), before);
    assert_eq!(parts.random.drawn, 0);
    assert_eq!(described, 2 + 12 * 4096 + 9 * 256 + 2 * 16 + 9 * 16);
}

#[test]
fn execute_given_uses_the_given_answers() {
    let mut parts = Parts::new();
    traits::ProgramCounter::set_position(&mut parts.program_counter, 0x200);
    let mut keys = [false; 16];
    keys[0xb] = true;
    let mut run = |parts: &mut Parts, apply: bool, first: u8, second: u8, key_down: bool| {
        execute_given(
            apply,
            Instruction::new(first, second),
            &mut parts.program_counter,
            &mut parts.stack,
            &mut parts.memory,
            &mut parts.screen_memory,
            &mut parts.variable_registers,
            key_down,
            keys,
            &mut parts.index_register,
            &mut parts.delay_timer,
            &mut parts.sound_timer,
            0x3c,
            0x50,
        )
    };
    assert!(run(&mut parts, true, 0xc1, 0xf0, false).is_ok());
    assert_eq!(parts.register(1), 0x30);
    assert!(run(&mut parts, true, 0xe1, 0x9e, true).is_ok());
    assert_eq!(parts.position(), 0x202);
    assert!(run(&mut parts, true, 0xe1, 0x9e, false).is_ok());
    assert_eq!(parts.position(), 0x202);
    assert!(run(&mut parts, true, 0xe1, 0xa1, false).is_ok());
    assert_eq!(parts.position(), 0x204);
    assert!(run(&mut parts, true, 0xf2, 0x0a, false).is_ok());
    assert_eq!(parts.register(2), 0xb);
    assert_eq!(parts.position(), 0x204);
    let before = parts.everything();
    assert!(run(&mut parts, false, 0xc3, 0xff, true).is_ok());
    assert!(run(&mut parts, false, 0xf3, 0x0a, true).is_ok());
    assert!(run(&mut parts, false, 0xe3, 0x9e, true).is_ok());
    assert_eq!(parts.everything(), before);
    assert_eq!(parts.random.drawn, 0);
}

struct CountingKeypad {
    asked: std::cell::Cell<usize>,
}

impl traits::Keypad for CountingKeypad {
    fn state(&self) -> [bool; 16] {
        self.asked.set(self.asked.get() + 1);
        [false; 16]
    }

    fn key_state(&self, key_index: usize) -> bool {
        self.asked.set(self.asked.get() + 1);
        key_index == 7
    }
}

#[test]
fn execute_asks_the_keypad_only_where_it_must() {
    let keypad = CountingKeypad { asked: std::cell::Cell::new(0) };
    let mut parts = Parts::new();
    parts.set(1, 7);
    traits::ProgramCounter::set_position(&mut parts.program_counter, 0x200);
    let mut run = |parts: &mut Parts, apply: bool, first: u8, second: u8| {
        execute(
            apply,
            Instruction::new(first, second),
            &mut parts.program_counter,
            &mut parts.stack,
            &mut parts.memory,
            &mut parts.screen_memory,
            &mut parts.variable_registers,
            &keypad,
            &mut parts.index_register,
            &mut parts.delay_timer,
            &mut parts.sound_timer,
            &mut parts.random,
            0x50,
        )
    };
    assert!(run(&mut parts, true, 0x61, 0x07).is_ok());
    assert!(run(&mut parts, false, 0xe1, 0x9e).is_ok());
    assert!(run(&mut parts, false, 0xf1, 0x0a).is_ok());
    assert!(run(&mut parts, true, 0xe1, 0x9f).is_err());
    assert_eq!(keypad.asked.get(), 0);
    assert!(run(&mut parts, true, 0xe1, 0x9e).is_ok());
    assert_eq!(keypad.asked.get(), 1);
    assert_eq!(parts.position(), 0x202);
    assert_eq!(key_of_register_x(Instruction::new(0xe1, 0x9e), &parts.variable_registers), 7);
    assert!(run(&mut parts, true, 0x62, 0x08).is_ok());
    assert!(run(&mut parts, true, 0xe2, 0x9e).is_ok());
    assert_eq!(keypad.asked.get(), 2);
    assert_eq!(parts.position(), 0x202);
    assert!(run(&mut parts, true, 0xe2, 0xa1).is_ok());
    assert_eq!(keypad.asked.get(), 3);
    assert_eq!(parts.position(), 0x204);
    traits::ProgramCounter::set_position(&mut parts.program_counter, 0x202);
    assert!(run(&mut parts, true, 0xf1, 0x0a).is_ok());
    assert_eq!(keypad.asked.get(), 4);
    assert_eq!(parts.position(), 0x200);
    assert_eq!(parts.random.drawn, 0);
}
