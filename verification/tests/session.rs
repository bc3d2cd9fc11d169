use chip8_base::interpreter::rendered_result;
use chip8_base::rendered_memory::{rows_to_text, store_row, store_rows};
use chip8_base::traits;
use chip8_base::traits::Interpreter as _;
use chip8_base::{
    fmt_rendered_memory, DelayTimer, ExecutionState, Font, Interpreter, Keypad, Memory,
    PartialDisassembleOptions, ProgramCounter, ScreenMemory, SoundTimer, Stack,
};
use std::slice::Iter;

struct CountingRenderer {
    frames: usize,
    set_cells: usize,
    fail_with: Option<&'static str>,
}

impl CountingRenderer {
    fn new() -> CountingRenderer {
        CountingRenderer { frames: 0, set_cells: 0, fail_with: None }
    }
}

impl traits::Renderer for CountingRenderer {
    fn render(&mut self, memory: Iter<Vec<bool>>) -> Result<(), &'static str> {
        if let Some(words) = self.fail_with {
            return Err(words);
        }
        self.frames += 1;
        self.set_cells = memory.map(|row| row.iter().filter(|cell| **cell).count()).sum();
        Ok(())
    }
}

struct Sequence {
    next: u8,
}

impl traits::Random for Sequence {
    fn value(&mut self) -> u8 {
        self.next = self.next.wrapping_add(1);
        self.next
    }
}

type Session = Interpreter<CountingRenderer, Keypad, Sequence>;

fn session() -> Session {
    Interpreter::new_crate_defaults(CountingRenderer::new(), Keypad::new(), Sequence { next: 0 })
}

fn options(count_before: usize, count_after: usize) -> PartialDisassembleOptions {
    PartialDisassembleOptions {
        count_before,
        count_after,
        fix_misalignment: false,
        maintain_length: false,
    }
}

#[test]
fn clear_and_jump_loop_forever() {
    let mut interpreter = session();
    {
        let bus = interpreter.create_bus();
        assert!(!traits::ScreenMemory::display(bus.screen_memory, 5, 5, &[0xff, 0xff], 2));
        assert!(!bus.screen_memory.is_empty());
    }
    assert!(interpreter.load(vec![0x00, 0xe0, 0x12, 0x00], 0x200).is_ok());
    assert_eq!(interpreter.dump_program_counter(), 0x200);
    assert!(!interpreter.create_bus().screen_memory.is_empty());

    let state = interpreter.update().unwrap();
    assert_eq!(state.instruction_disassembly, "clear screen");
    assert!(interpreter.create_bus().screen_memory.is_empty());
    assert_eq!(interpreter.dump_program_counter(), 0x202);
    let snapshot = interpreter.create_snapshot(options(0, 0));
    assert_eq!(snapshot.program_counter_position, 0x202);

    let state = interpreter.update().unwrap();
    assert_eq!(state.instruction_disassembly, "jump to 0x0200");
    assert_eq!(interpreter.dump_program_counter(), 0x200);

    for _ in 0..10 {
        assert!(interpreter.update().is_ok());
        assert_eq!(interpreter.dump_program_counter(), 0x202);
        assert!(interpreter.update().is_ok());
        assert_eq!(interpreter.dump_program_counter(), 0x200);
    }
}

#[test]
fn load_resets_and_installs_font_and_program() {
    let mut interpreter = session();
    assert!(interpreter.load(vec![0x6a, 0x07, 0xfa, 0x15, 0xaf, 0xff, 0x22, 0x08], 0x200).is_ok());
    for _ in 0..4 {
        assert!(interpreter.update().is_ok());
    }
    let snapshot = interpreter.create_snapshot(options(0, 0));
    assert_eq!(snapshot.variable_register_values[10], 7);
    assert_eq!(snapshot.index_register_value, 0xfff);
    // Set to 7 in the second cycle, and ticked at the end of that cycle and of the next two.
    assert_eq!(snapshot.delay_timer_value, 4);
    assert_eq!(snapshot.program_counter_position, 0x208);

    assert!(interpreter.load(vec![0x12, 0x00], 0x300).is_ok());
    let snapshot = interpreter.create_snapshot(options(0, 0));
    assert_eq!(snapshot.variable_register_values, [0; 16]);
    assert_eq!(snapshot.index_register_value, 0);
    assert_eq!(snapshot.delay_timer_value, 0);
    assert_eq!(snapshot.sound_timer_value, 0);
    assert_eq!(snapshot.program_counter_position, 0x300);
    let memory = interpreter.dump_memory();
    assert_eq!(memory.len(), 4096);
    assert_eq!(&memory[0x50..0x55], &[0xf0, 0x90, 0x90, 0x90, 0xf0]);
    assert_eq!(&memory[0x200..0x208], &[0; 8]);
    assert_eq!(&memory[0x300..0x302], &[0x12, 0x00]);
    // The stack was cleared: a return has nowhere to go.
    assert!(interpreter.load(vec![0x00, 0xee], 0x200).is_ok());
    assert_eq!(
        interpreter.update().unwrap_err(),
        "While executing instruction: could not execute instruction 0x00ee"
    );
}

#[test]
fn load_behind_the_memory_fails() {
    let mut interpreter = session();
    assert!(interpreter.load(vec![0x12, 0x00], 0x200).is_ok());
    let fault = interpreter.load(vec![1, 2, 3], 4094).unwrap_err();
    assert_eq!(fault.location(), 4096);
    assert_eq!(interpreter.dump_program_counter(), 0x200);
    assert_eq!(&interpreter.dump_memory()[0x200..0x202], &[0, 0]);
    assert!(interpreter.load(vec![1, 2], 4094).is_ok());
    assert_eq!(&interpreter.dump_memory()[4094..], &[1, 2]);
}

#[test]
fn session_with_small_memory_cannot_hold_the_font() {
    let mut interpreter: Session = Interpreter::new(
        Memory::new(0x60),
        ScreenMemory::new_chip8(),
        CountingRenderer::new(),
        Stack::new(),
        DelayTimer::new(),
        SoundTimer::new(),
        Keypad::new(),
        ProgramCounter::new(),
        Sequence { next: 0 },
        Font::new(),
    );
    assert_eq!(interpreter.apply_font(Font::new()).unwrap_err().location(), 0x60);
    assert_eq!(interpreter.reset().unwrap_err().location(), 0x60);
    assert_eq!(interpreter.load(vec![0x12, 0x00], 0).unwrap_err().location(), 0x60);
    assert_eq!(interpreter.dump_memory(), vec![0; 0x60]);
}

#[test]
fn update_ticks_both_timers_once() {
    let mut interpreter = session();
    let program = vec![0x61, 0x03, 0xf1, 0x15, 0xf1, 0x18, 0x12, 0x06];
    assert!(interpreter.load(program, 0x200).is_ok());
    assert!(interpreter.update().is_ok());
    assert!(interpreter.update().is_ok());
    let snapshot = interpreter.create_snapshot(options(0, 0));
    assert_eq!((snapshot.delay_timer_value, snapshot.sound_timer_value), (2, 0));
    assert!(interpreter.update().is_ok());
    let snapshot = interpreter.create_snapshot(options(0, 0));
    assert_eq!((snapshot.delay_timer_value, snapshot.sound_timer_value), (1, 2));
    for _ in 0..5 {
        assert!(interpreter.update().is_ok());
    }
    let snapshot = interpreter.create_snapshot(options(0, 0));
    assert_eq!((snapshot.delay_timer_value, snapshot.sound_timer_value), (0, 0));
}

#[test]
fn cycle_ticks_the_timers_only_when_a_tick_is_due() {
    let mut interpreter = session();
    let program = vec![0x61, 0x03, 0xf1, 0x15, 0xf1, 0x18, 0x12, 0x06];
    assert!(interpreter.load(program, 0x200).is_ok());
    for _ in 0..3 {
        assert!(interpreter.cycle(false).is_ok());
    }
    let snapshot = interpreter.create_snapshot(options(0, 0));
    assert_eq!((snapshot.delay_timer_value, snapshot.sound_timer_value), (3, 3));
    for _ in 0..10 {
        assert!(interpreter.cycle(false).is_ok());
    }
    assert_eq!(interpreter.cycle(true).unwrap().instruction_disassembly, "jump to 0x0206");
    let snapshot = interpreter.create_snapshot(options(0, 0));
    assert_eq!((snapshot.delay_timer_value, snapshot.sound_timer_value), (2, 2));
    assert_eq!(interpreter.dump_program_counter(), 0x206);
}

#[test]
fn update_reports_unsupported_instructions() {
    let mut interpreter = session();
    assert!(interpreter.load(vec![0xff, 0xff], 0x200).is_ok());
    assert_eq!(
        interpreter.update().unwrap_err(),
        "While executing instruction: unsupported instruction 0xffff"
    );
    assert_eq!(interpreter.dump_program_counter(), 0x202);
}

#[test]
fn update_behind_the_memory_fails_to_fetch() {
    let mut interpreter = session();
    assert!(interpreter.load(vec![0x1f, 0xff], 0x200).is_ok());
    assert!(interpreter.update().is_ok());
    assert_eq!(interpreter.dump_program_counter(), 0xfff);
    assert_eq!(
        interpreter.update().unwrap_err(),
        "While fetching instruction: Memory fault at 4096"
    );
    assert_eq!(interpreter.dump_program_counter(), 0xfff);
}

#[test]
fn renderer_error_ends_the_cycle() {
    let mut interpreter: Session = Interpreter::new_crate_defaults(
        CountingRenderer { frames: 0, set_cells: 0, fail_with: Some("no screen") },
        Keypad::new(),
        Sequence { next: 0 },
    );
    assert!(interpreter.load(vec![0x61, 0x03, 0xf1, 0x15], 0x200).is_ok());
    assert_eq!(interpreter.update().unwrap_err(), "While rendering: no screen");
    assert_eq!(interpreter.dump_program_counter(), 0x202);
    assert_eq!(interpreter.create_snapshot(options(0, 0)).variable_register_values[1], 3);
}

#[test]
fn rendered_result_passes_the_state_or_the_words() {
    let state = ExecutionState { instruction_disassembly: "pop stack".to_string() };
    assert_eq!(rendered_result(state, Ok(())).unwrap().instruction_disassembly, "pop stack");
    let state = ExecutionState { instruction_disassembly: "pop stack".to_string() };
    assert_eq!(rendered_result(state, Err("dark")).unwrap_err(), "While rendering: dark");
}

#[test]
fn session_draws_and_clears() {
    let mut interpreter = session();
    // I = glyph of 0, draw it at (0, 0), then jump on itself.
    assert!(interpreter.load(vec![0xf0, 0x29, 0xd0, 0x05, 0x12, 0x04], 0x200).is_ok());
    assert!(interpreter.update().is_ok());
    assert!(interpreter.update().is_ok());
    {
        let bus = interpreter.create_bus();
        assert!(!bus.screen_memory.is_empty());
        assert_eq!(*bus.index_register, 0x50);
    }
    interpreter.clear_screen();
    let bus = interpreter.create_bus();
    assert!(bus.screen_memory.is_empty());
}

#[test]
fn disassembly_window_shows_instructions_around_the_counter() {
    let mut interpreter = session();
    let program = vec![0x00, 0xe0, 0x61, 0x2a, 0xff, 0xff, 0x12, 0x00];
    assert!(interpreter.load(program, 0x200).is_ok());
    assert!(interpreter.update().is_ok());
    let before = interpreter.dump_memory();
    let window = interpreter.create_partial_disassemble_snapshot(options(1, 2));
    let listed: Vec<(usize, (u8, u8), &str)> = window
        .iter()
        .map(|entry| (entry.location, entry.value, entry.disassembly.as_str()))
        .collect();
    assert_eq!(
        listed,
        vec![
            (0x200, (0x00, 0xe0), "clear screen"),
            (0x202, (0x61, 0x2a), "V1 = 0x2a / 42"),
            (0x204, (0xff, 0xff), ""),
            (0x206, (0x12, 0x00), "jump to 0x0200"),
        ]
    );
    assert_eq!(interpreter.dump_memory(), before);
    assert_eq!(interpreter.dump_program_counter(), 0x202);
    let snapshot = interpreter.create_snapshot(options(1, 2));
    assert_eq!(snapshot.partial_disassemble.len(), 4);
    assert_eq!(snapshot.variable_register_values, [0; 16]);
}

#[test]
fn disassembly_window_stops_at_the_ends_of_the_memory() {
    let mut interpreter = session();
    assert!(interpreter.load(vec![0x12, 0x00], 2).is_ok());
    let window = interpreter.create_partial_disassemble_snapshot(options(5, 0));
    assert_eq!(window.iter().map(|entry| entry.location).collect::<Vec<usize>>(), vec![0, 2]);

    assert!(interpreter.load(vec![0x12, 0x00], 4093).is_ok());
    let window = interpreter.create_partial_disassemble_snapshot(options(1, usize::MAX));
    assert_eq!(window.iter().map(|entry| entry.location).collect::<Vec<usize>>(), vec![4091, 4093]);
    assert_eq!(window[1].disassembly, "jump to 0x0200");
    assert_eq!(window[1].value, (0x12, 0x00));

    assert!(interpreter.load(vec![], 4095).is_ok());
    let window = interpreter.create_partial_disassemble_snapshot(options(0, 3));
    assert_eq!(window.len(), 0);
}

#[test]
fn rendered_memory_text() {
    let rows = vec![vec![true, false, true], vec![], vec![false, true]];
    assert_eq!(fmt_rendered_memory(&rows), "◼ ◼\n\n ◼\n");
    assert_eq!(fmt_rendered_memory(&vec![]), "");
    assert_eq!(rows_to_text(&rows, "#", ".", "|"), "#.#||.#|");
}

#[test]
fn rendered_memory_grows_with_the_frame() {
    let mut rendered: Vec<Vec<bool>> = vec![];
    let frame = vec![vec![true, false], vec![false, true]];
    store_rows(&mut rendered, &frame);
    assert_eq!(rendered, frame);
    let smaller = vec![vec![false]];
    store_rows(&mut rendered, &smaller);
    assert_eq!(rendered, vec![vec![false, false], vec![false, true]]);
    let wider = vec![vec![true, true, true], vec![], vec![true]];
    store_rows(&mut rendered, &wider);
    assert_eq!(rendered, vec![vec![true, true, true], vec![false, true], vec![true]]);
    let mut row = vec![true, true, true];
    store_row(&mut row, &vec![false]);
    assert_eq!(row, vec![false, true, true]);
}
