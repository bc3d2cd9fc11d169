//! One session of the machine: its parts together with the frontend's renderer, keypad
//! and source of random bytes. A session is loaded with a program and then goes on cycle
//! by cycle: fetch, carry out, tick the timers, show the frame.
use vstd::prelude::*;
use vstd::string::StringExecFns;
use crate::bus::Bus;
use crate::cpu::{execute, failed, outcome, ExecutionState};
use crate::delay_timer::{ticked, DelayTimer};
use crate::font::Font;
use crate::instruction::{Instruction, InstructionError};
use crate::machine::{disassembly, machine_of, operation, perform, Machine, Polled};
use crate::memory::{block_fault, overwritten, zeroed, Memory, MemoryFault};
use crate::program_counter::ProgramCounter;
use crate::screen_memory::ScreenMemory;
use crate::sound_timer::SoundTimer;
use crate::stack::Stack;
use crate::text::decimal_text;
use crate::traits;
use crate::variable_registers::VariableRegisters;

verus! {

/// Where the glyphs lie in the memory of a new session.
pub const DEFAULT_FONT_START: usize = 0x050;

/// The state of a session at one moment.
#[derive(Debug)]
pub struct InterpreterSnapshot {
    pub program_counter_position: usize,
    pub index_register_value: usize,
    pub variable_register_values: [u8; 16],
    pub delay_timer_value: u8,
    pub sound_timer_value: u8,
    pub partial_disassemble: Vec<PartialDisassembleSnapshot>,
}

/// How many instructions a window on the program shows before and after the program
/// counter. The two switches are kept for callers that set them; the window does not
/// depend on them.
#[derive(Debug, Clone, Copy)]
pub struct PartialDisassembleOptions {
    pub count_before: usize,
    pub count_after: usize,
    pub fix_misalignment: bool,
    pub maintain_length: bool,
}

/// One instruction of a window on the program: where it lies, its two bytes, and its
/// text, which is empty where the bytes spell no supported instruction.
#[derive(Debug)]
pub struct PartialDisassembleSnapshot {
    pub location: usize,
    pub value: (u8, u8),
    pub disassembly: String,
}

/// The machine after a reset: memory, registers, index register, stack and timers are
/// cleared, and the glyphs are back in the memory where they fit. The program counter and
/// the frame buffer stay.
pub open spec fn reset_machine(machine: Machine, glyphs: Seq<u8>, font_start: usize) -> Machine {
    Machine {
        stack: Seq::empty(),
        memory: if font_start + glyphs.len() <= machine.memory.len() {
            overwritten(zeroed(machine.memory.len()), font_start as int, glyphs)
        } else {
            zeroed(machine.memory.len())
        },
        registers: Seq::new(16, |i: int| 0u8),
        index_register: 0,
        delay_timer: 0,
        sound_timer: 0,
        ..machine
    }
}

/// Whether a program of `program` bytes can be loaded at `start_position`: the glyphs and
/// the program both fit in the memory.
pub open spec fn can_load(
    machine: Machine,
    glyphs: Seq<u8>,
    font_start: usize,
    program: Seq<u8>,
    start_position: usize,
) -> bool {
    font_start + glyphs.len() <= machine.memory.len() && start_position + program.len()
        <= machine.memory.len()
}

/// The address that the fault of a load names: that of the glyphs where they do not fit,
/// else that of the program.
pub open spec fn load_fault(
    machine: Machine,
    glyphs: Seq<u8>,
    font_start: usize,
    start_position: usize,
) -> nat {
    if font_start + glyphs.len() > machine.memory.len() {
        block_fault(machine.memory.len(), font_start)
    } else {
        block_fault(machine.memory.len(), start_position)
    }
}

/// The machine after a program was loaded: reset, with the program in the memory at
/// `start_position` and the program counter there. Where the program cannot be loaded,
/// the machine is reset and no more.
pub open spec fn loaded_machine(
    machine: Machine,
    glyphs: Seq<u8>,
    font_start: usize,
    program: Seq<u8>,
    start_position: usize,
) -> Machine {
    let reset = reset_machine(machine, glyphs, font_start);
    if can_load(machine, glyphs, font_start, program, start_position) {
        Machine {
            memory: overwritten(reset.memory, start_position as int, program),
            program_counter: start_position,
            ..reset
        }
    } else {
        reset
    }
}

/// Whether the two bytes of the next instruction lie in the memory.
pub open spec fn can_fetch(machine: Machine) -> bool {
    machine.program_counter + 1 < machine.memory.len()
}

/// The instruction at the program counter.
pub open spec fn next_instruction(machine: Machine) -> Instruction {
    Instruction::from_bytes(
        machine.memory[machine.program_counter as int],
        machine.memory[machine.program_counter + 1],
    )
}

/// The machine with the program counter behind the instruction that was fetched.
pub open spec fn after_fetch(machine: Machine) -> Machine {
    Machine { program_counter: (machine.program_counter + 2) as usize, ..machine }
}

/// The machine after both timers have ticked once.
pub open spec fn after_tick(machine: Machine) -> Machine {
    Machine {
        delay_timer: ticked(machine.delay_timer),
        sound_timer: ticked(machine.sound_timer),
        ..machine
    }
}

/// The address that a cycle could not read when it could not fetch its instruction: that
/// of the first of the two bytes that does not lie in the memory.
pub open spec fn fetch_fault(machine: Machine) -> usize {
    if machine.program_counter < machine.memory.len() {
        (machine.program_counter + 1) as usize
    } else {
        machine.program_counter
    }
}

/// The text of the error of a cycle that could not fetch its instruction.
pub open spec fn fetch_error_text(machine: Machine) -> Seq<char> {
    "While fetching instruction: "@ + "Memory fault at "@ + decimal_text(
        fetch_fault(machine) as nat,
    )
}

/// The text of the error of a cycle whose frame could not be shown: the renderer's words
/// behind the name of the step.
pub open spec fn render_error_text(words: Seq<char>) -> Seq<char> {
    "While rendering: "@ + words
}

/// The text of the error of a cycle whose instruction failed.
pub open spec fn execute_error_text(error: InstructionError) -> Seq<char> {
    "While executing instruction: "@ + error.text()
}

/// Whether `result` and the machine `after` are what one cycle makes of the machine
/// `before`, where the frontend answers `polled` and the renderer `rendered`.
///
/// A cycle fetches the instruction at the program counter and moves the counter behind
/// it; where the instruction does not lie in the memory, the cycle fails and nothing
/// changes. It carries the instruction out; where that fails, the cycle fails with the
/// counter behind the instruction. Then both timers tick, where a tick is due, and the
/// frame buffer is shown; the cycle fails with the renderer's words where showing fails.
/// Every error names the step that failed.
pub open spec fn cycle_outcome(
    result: Result<ExecutionState, String>,
    after: Machine,
    before: Machine,
    font_start: usize,
    tick_due: bool,
    polled: Polled,
    rendered: Result<(), Seq<char>>,
) -> bool {
    let instruction = next_instruction(before);
    let fetched = after_fetch(before);
    if !can_fetch(before) {
        after == before && (result matches Err(text) && text@ == fetch_error_text(before))
    } else if operation(instruction) is Unsupported {
        after == fetched && (result matches Err(text) && text@ == execute_error_text(
            InstructionError::UnsupportedInstructionError(instruction),
        ))
    } else {
        match perform(operation(instruction), instruction, fetched, font_start, polled) {
            None => after == fetched && (result matches Err(text) && text@ == execute_error_text(
                InstructionError::InstructionExecuteError(instruction),
            )),
            Some(next) => after == (if tick_due {
                after_tick(next)
            } else {
                next
            }) && match rendered {
                Ok(_) => result matches Ok(state) && state.instruction_disassembly@
                    == disassembly(instruction),
                Err(words) => result matches Err(text) && text@ == render_error_text(words),
            },
        }
    }
}

/// The number of instructions before the program counter that a window shows: as many as
/// were asked for, and no more than there are.
pub open spec fn window_before(program_counter: usize, count_before: usize) -> int {
    if count_before <= program_counter / 2 {
        count_before as int
    } else {
        program_counter as int / 2
    }
}

/// Where a window on the program starts.
pub open spec fn window_start(program_counter: usize, count_before: usize) -> int {
    program_counter - 2 * window_before(program_counter, count_before)
}

/// The number of instructions that a window on the program shows: those before the
/// program counter, the one at it and those after it, as far as they lie in the memory.
pub open spec fn window_length(
    memory_size: nat,
    program_counter: usize,
    options: PartialDisassembleOptions,
) -> int {
    let start = window_start(program_counter, options.count_before);
    let wanted = window_before(program_counter, options.count_before) + 1 + options.count_after;
    let fitting = if start < memory_size {
        (memory_size - start) / 2
    } else {
        0
    };
    if wanted <= fitting {
        wanted
    } else {
        fitting
    }
}

/// Whether `entries` is the window on the program of `machine`: the instructions from the
/// window's start on, two bytes each, every one with its place, its bytes and its text.
pub open spec fn is_window(
    entries: Seq<PartialDisassembleSnapshot>,
    machine: Machine,
    options: PartialDisassembleOptions,
) -> bool {
    let start = window_start(machine.program_counter, options.count_before);
    &&& entries.len() == window_length(machine.memory.len(), machine.program_counter, options)
    &&& forall|k: int|
        0 <= k < entries.len() ==> {
            let entry = #[trigger] entries[k];
            &&& entry.location == start + 2 * k
            &&& entry.value == (machine.memory[start + 2 * k], machine.memory[start + 2 * k + 1])
            &&& entry.disassembly@ == disassembly(
                Instruction::from_bytes(entry.value.0, entry.value.1),
            )
        }
}

/// What a cycle gives back, given what the renderer said: the state of the instruction
/// where the frame buffer was shown, else the renderer's words behind `While rendering: `.
pub fn rendered_result(state: ExecutionState, rendered: Result<(), &'static str>) -> (result:
    Result<ExecutionState, String>)
    ensures
        match rendered {
            Ok(_) => result matches Ok(same) && same.instruction_disassembly@
                == state.instruction_disassembly@,
            Err(words) => result matches Err(text) && text@ == render_error_text(words@),
        },
{
    match rendered {
        Ok(_) => Ok(state),
        Err(error) => {
            let mut text = String::from_str("While rendering: ");
            text.append(error);
            Err(text)
        },
    }
}

/// One session of the machine: its parts, the frontend's renderer, keypad and source of
/// random bytes, and the font.
pub struct Interpreter<Renderer, Keypad, Random> where
    Renderer: traits::Renderer,
    Keypad: traits::Keypad,
    Random: traits::Random,
 {
    memory: Memory,
    screen_memory: ScreenMemory,
    renderer: Renderer,
    stack: Stack,
    delay_timer: DelayTimer,
    sound_timer: SoundTimer,
    keypad: Keypad,
    program_counter: ProgramCounter,
    index_register: usize,
    variable_registers: VariableRegisters,
    font: Font,
    font_start: usize,
    random: Random,
}

impl<Renderer, Keypad, Random> Interpreter<Renderer, Keypad, Random> where
    Renderer: traits::Renderer,
    Keypad: traits::Keypad,
    Random: traits::Random,
 {
    /// The machine of the session.
    pub closed spec fn machine(&self) -> Machine {
        machine_of(
            self.program_counter,
            self.stack,
            self.memory,
            self.screen_memory,
            self.variable_registers,
            self.index_register,
            self.delay_timer,
            self.sound_timer,
        )
    }

    /// Where the glyphs lie in the memory.
    pub closed spec fn font_start(&self) -> usize {
        self.font_start
    }

    /// The bytes of the glyphs.
    pub closed spec fn glyphs(&self) -> Seq<u8> {
        self.font@
    }

    /// A session that is made of the given parts. Its registers and its index register
    /// hold zero, and its glyphs belong at `DEFAULT_FONT_START`; they come into the memory
    /// with the first reset or load.
    pub fn new(
        memory: Memory,
        screen_memory: ScreenMemory,
        renderer: Renderer,
        stack: Stack,
        delay_timer: DelayTimer,
        sound_timer: SoundTimer,
        keypad: Keypad,
        program_counter: ProgramCounter,
        random: Random,
        font: Font,
    ) -> (result: Interpreter<Renderer, Keypad, Random>)
        ensures
            result.machine() == (Machine {
                program_counter: program_counter@,
                stack: stack@,
                memory: memory@,
                screen: screen_memory@,
                registers: Seq::new(16, |i: int| 0u8),
                index_register: 0,
                delay_timer: delay_timer@,
                sound_timer: sound_timer@,
            }),
            result.font_start() == DEFAULT_FONT_START,
            result.glyphs() == font@,
    {
        Interpreter {
            memory,
            screen_memory,
            renderer,
            stack,
            delay_timer,
            sound_timer,
            keypad,
            program_counter,
            index_register: 0,
            variable_registers: VariableRegisters::new(),
            font,
            font_start: DEFAULT_FONT_START,
            random,
        }
    }

    /// A session with the canonical parts: 4096 bytes of memory and a frame buffer of 64
    /// by 32 cells.
    pub fn new_crate_defaults(renderer: Renderer, keypad: Keypad, random: Random) -> (result:
        Interpreter<Renderer, Keypad, Random>)
        ensures
            result.machine() == (Machine {
                program_counter: 0,
                stack: Seq::empty(),
                memory: zeroed(4096),
                screen: crate::screen_memory::blank_grid(64, 32),
                registers: Seq::new(16, |i: int| 0u8),
                index_register: 0,
                delay_timer: 0,
                sound_timer: 0,
            }),
            result.font_start() == DEFAULT_FONT_START,
            result.glyphs() == crate::font::standard_glyphs(),
    {
        Interpreter::new(
            Memory::new(4096),
            ScreenMemory::new(64, 32),
            renderer,
            Stack::new(),
            DelayTimer::new(),
            SoundTimer::new(),
            keypad,
            ProgramCounter::new(),
            random,
            Font::new(),
        )
    }

    /// Lends the parts of the machine out together.
    pub fn create_bus<'bus>(&'bus mut self) -> (bus: Bus<'bus, Keypad, Random>)
        ensures
            bus.machine() == old(self).machine(),
            final(self).font_start() == old(self).font_start(),
            final(self).glyphs() == old(self).glyphs(),
            final(self).machine() == machine_of(
                *final(bus.program_counter),
                *final(bus.stack),
                *final(bus.memory),
                *final(bus.screen_memory),
                *final(bus.variable_registers),
                *final(bus.index_register),
                *final(bus.delay_timer),
                *final(bus.sound_timer),
            ),
    {
        Bus {
            program_counter: &mut self.program_counter,
            stack: &mut self.stack,
            memory: &mut self.memory,
            screen_memory: &mut self.screen_memory,
            variable_registers: &mut self.variable_registers,
            keypad: &self.keypad,
            index_register: &mut self.index_register,
            delay_timer: &mut self.delay_timer,
            sound_timer: &mut self.sound_timer,
            random: &mut self.random,
        }
    }

    /// Copies the glyphs of `font` into the memory where the session keeps its glyphs.
    /// Fails, and changes nothing, where they do not fit.
    pub fn apply_font(&mut self, font: Font) -> (result: Result<(), MemoryFault>)
        ensures
            final(self).font_start() == old(self).font_start(),
            final(self).glyphs() == old(self).glyphs(),
            result is Ok <==> old(self).font_start() + 80 <= old(self).machine().memory.len(),
            result matches Err(fault) ==> fault.spec_location() == block_fault(
                old(self).machine().memory.len(),
                old(self).font_start(),
            ),
            final(self).machine() == if result is Ok {
                Machine {
                    memory: overwritten(
                        old(self).machine().memory,
                        old(self).font_start() as int,
                        font@,
                    ),
                    ..old(self).machine()
                }
            } else {
                old(self).machine()
            },
    {
        font.apply(&mut self.memory, self.font_start)
    }

    /// Fetches the instruction at the program counter and moves the counter behind it.
    /// Fails, and changes nothing, where the instruction does not lie in the memory.
    pub fn fetch(&mut self) -> (result: Result<Instruction, MemoryFault>)
        ensures
            final(self).font_start() == old(self).font_start(),
            final(self).glyphs() == old(self).glyphs(),
            can_fetch(old(self).machine()) ==> result == Ok::<Instruction, MemoryFault>(
                next_instruction(old(self).machine()),
            ) && final(self).machine() == after_fetch(old(self).machine()),
            !can_fetch(old(self).machine()) ==> final(self).machine() == old(self).machine() && (
            result matches Err(fault) && fault.spec_location() == fetch_fault(
                old(self).machine(),
            )),
    {
        self.program_counter.read(&self.memory)
    }

    /// Puts the machine back to its start: clears the memory, the registers, the index
    /// register, the stack and both timers, and copies the glyphs into the memory. Fails
    /// where the glyphs do not fit; the rest is cleared all the same.
    pub fn reset(&mut self) -> (result: Result<(), MemoryFault>)
        ensures
            final(self).font_start() == old(self).font_start(),
            final(self).glyphs() == old(self).glyphs(),
            final(self).machine() == reset_machine(
                old(self).machine(),
                old(self).glyphs(),
                old(self).font_start(),
            ),
            old(self).glyphs().len() == 80,
            result is Ok <==> old(self).font_start() + 80 <= old(self).machine().memory.len(),
            result matches Err(fault) ==> fault.spec_location() == block_fault(
                old(self).machine().memory.len(),
                old(self).font_start(),
            ),
    {
        self.memory.clear();
        traits::Stack::clear(&mut self.stack);
        self.variable_registers.reset();
        self.index_register = 0;
        self.sound_timer.reset();
        self.delay_timer.reset();
        let result = self.apply_font(self.font);
        proof {
            self.font.lemma_len();
            assert(self.machine() =~= reset_machine(
                old(self).machine(),
                old(self).glyphs(),
                old(self).font_start(),
            ));
        }
        result
    }

    /// The place of the program counter.
    pub fn dump_program_counter(&self) -> (result: usize)
        ensures
            result == self.machine().program_counter,
    {
        traits::ProgramCounter::get_position(&self.program_counter)
    }
}

impl<Renderer, Keypad, Random> traits::Interpreter<ExecutionState> for Interpreter<
    Renderer,
    Keypad,
    Random,
> where Renderer: traits::Renderer, Keypad: traits::Keypad, Random: traits::Random {
    /// Resets the machine, copies `program` into the memory at `start_position` and sets
    /// the program counter there. Fails where the glyphs or the program do not fit in the
    /// memory; the machine is then reset and no more.
    fn load(&mut self, program: Vec<u8>, start_position: usize) -> (result: Result<
        (),
        MemoryFault,
    >)
        ensures
            final(self).font_start() == old(self).font_start(),
            final(self).glyphs() == old(self).glyphs(),
            final(self).machine() == loaded_machine(
                old(self).machine(),
                old(self).glyphs(),
                old(self).font_start(),
                program@,
                start_position,
            ),
            result is Ok <==> can_load(
                old(self).machine(),
                old(self).glyphs(),
                old(self).font_start(),
                program@,
                start_position,
            ),
            result matches Err(fault) ==> fault.spec_location() == load_fault(
                old(self).machine(),
                old(self).glyphs(),
                old(self).font_start(),
                start_position,
            ),
    {
        match self.reset() {
            Ok(_) => {},
            Err(fault) => {
                return Err(fault);
            },
        }
        match self.memory.set_block(start_position, program.as_slice()) {
            Ok(_) => {},
            Err(fault) => {
                return Err(fault);
            },
        }
        traits::ProgramCounter::set_position(&mut self.program_counter, start_position);
        assert(self.machine() =~= loaded_machine(
            old(self).machine(),
            old(self).glyphs(),
            old(self).font_start(),
            program@,
            start_position,
        ));
        Ok(())
    }

    /// One cycle of the machine in which the timers tick; see `cycle`.
    fn update(&mut self) -> (result: Result<ExecutionState, String>)
        ensures
            final(self).font_start() == old(self).font_start(),
            final(self).glyphs() == old(self).glyphs(),
            exists|polled: Polled, rendered: Result<(), Seq<char>>|
                polled.keys.len() == 16 && #[trigger] cycle_outcome(
                    result,
                    final(self).machine(),
                    old(self).machine(),
                    old(self).font_start(),
                    true,
                    polled,
                    rendered,
                ),
    {
        self.cycle(true)
    }

    /// Unsets every cell of the frame buffer.
    fn clear_screen(&mut self)
        ensures
            final(self).font_start() == old(self).font_start(),
            final(self).glyphs() == old(self).glyphs(),
            final(self).machine() == (Machine {
                screen: crate::machine::cleared(old(self).machine().screen),
                ..old(self).machine()
            }),
    {
        traits::ScreenMemory::clear(&mut self.screen_memory);
        assert(self.machine().screen =~= crate::machine::cleared(old(self).machine().screen));
    }

    /// A copy of the whole memory.
    fn dump_memory(&self) -> (result: Vec<u8>)
        ensures
            result@ == self.machine().memory,
    {
        traits::Memory::dump(&self.memory)
    }
}

impl<Renderer, Keypad, Random> Interpreter<Renderer, Keypad, Random> where
    Renderer: traits::Renderer,
    Keypad: traits::Keypad,
    Random: traits::Random,
 {
    /// One cycle of the machine; see `cycle_outcome`. The timers tick where `tick_due`
    /// says that their time has come: a frontend that runs its cycles faster than the
    /// timers count lets them tick in some cycles only. The keypad, the source of random
    /// bytes and the renderer answer as they will.
    pub fn cycle(&mut self, tick_due: bool) -> (result: Result<ExecutionState, String>)
        ensures
            final(self).font_start() == old(self).font_start(),
            final(self).glyphs() == old(self).glyphs(),
            exists|polled: Polled, rendered: Result<(), Seq<char>>|
                polled.keys.len() == 16 && #[trigger] cycle_outcome(
                    result,
                    final(self).machine(),
                    old(self).machine(),
                    old(self).font_start(),
                    tick_due,
                    polled,
                    rendered,
                ),
    {
        let ghost before = self.machine();
        let ghost font_start = self.font_start;
        let ghost idle = crate::machine::nothing_polled();
        let instruction = match self.fetch() {
            Ok(instruction) => instruction,
            Err(fault) => {
                let mut text = String::from_str("While fetching instruction: ");
                text.append(fault.to_string().as_str());
                let result = Err(text);
                proof {
                    assert(text@ =~= fetch_error_text(before));
                    assert(idle.keys.len() == 16 && cycle_outcome(
                        result,
                        self.machine(),
                        before,
                        font_start,
                        tick_due,
                        idle,
                        Ok(()),
                    ));
                }
                return result;
            },
        };
        let ghost fetched = self.machine();

        let execution_state: ExecutionState;

        let executed = execute(
            true,
            instruction,
            &mut self.program_counter,
            &mut self.stack,
            &mut self.memory,
            &mut self.screen_memory,
            &mut self.variable_registers,
            &self.keypad,
            &mut self.index_register,
            &mut self.delay_timer,
            &mut self.sound_timer,
            &mut self.random,
            self.font_start,
        );
        let ghost polled = choose|polled: Polled|
            polled.keys.len() == 16 && #[trigger] outcome(
                executed,
                self.machine(),
                true,
                instruction,
                fetched,
                font_start,
                polled,
            );
        match executed {
            Ok(value) => {
                execution_state = value;
            },
            Err(error) => {
                let mut text = String::from_str("While executing instruction: ");
                text.append(error.to_string().as_str());
                let result = Err(text);
                proof {
                    assert(polled.keys.len() == 16 && cycle_outcome(
                        result,
                        self.machine(),
                        before,
                        font_start,
                        tick_due,
                        polled,
                        Ok(()),
                    ));
                }
                return result;
            },
        }
        let ghost next = self.machine();

        if tick_due {
            let _ = traits::Timer::update(&mut self.sound_timer);
            let _ = traits::Timer::update(&mut self.delay_timer);
            assert(self.machine() =~= after_tick(next));
        }

        let rendered = self.renderer.render(self.screen_memory.iter());
        let result = rendered_result(execution_state, rendered);
        proof {
            let said: Result<(), Seq<char>> = match rendered {
                Ok(_) => Ok(()),
                Err(words) => Err(words@),
            };
            assert(polled.keys.len() == 16 && cycle_outcome(
                result,
                self.machine(),
                before,
                font_start,
                tick_due,
                polled,
                said,
            ));
        }
        result
    }

    /// The instructions around the program counter with their texts: as many before and
    /// after it as `disassemble_options` asks for, as far as they lie in the memory. The
    /// instructions are read and not carried out: the machine stays as it is.
    pub fn create_partial_disassemble_snapshot(
        &mut self,
        disassemble_options: PartialDisassembleOptions,
    ) -> (result: Vec<PartialDisassembleSnapshot>)
        ensures
            final(self).font_start() == old(self).font_start(),
            final(self).glyphs() == old(self).glyphs(),
            final(self).machine() == old(self).machine(),
            is_window(result@, old(self).machine(), disassemble_options),
    {
        let position = traits::ProgramCounter::get_position(&self.program_counter);
        let size = self.memory.size();
        let before = if disassemble_options.count_before <= position / 2 {
            disassemble_options.count_before
        } else {
            position / 2
        };
        let start_location = position - before * 2;
        let fitting = if start_location < size {
            (size - start_location) / 2
        } else {
            0
        };
        let length = if disassemble_options.count_after >= fitting {
            fitting
        } else if before + 1 + disassemble_options.count_after <= fitting {
            before + 1 + disassemble_options.count_after
        } else {
            fitting
        };
        assert(length == window_length(
            self.machine().memory.len(),
            self.machine().program_counter,
            disassemble_options,
        ));

        let mut result: Vec<PartialDisassembleSnapshot> = vec![];

        let mut index: usize = 0;
        while index < length
            invariant
                index <= length,
                length <= fitting,
                size == self.memory@.len(),
                fitting == if start_location < size {
                    (size - start_location) / 2
                } else {
                    0
                },
                start_location == window_start(
                    old(self).machine().program_counter,
                    disassemble_options.count_before,
                ),
                self.machine() == old(self).machine(),
                self.font_start == old(self).font_start,
                self.font == old(self).font,
                result@.len() == index,
                forall|k: int|
                    0 <= k < index ==> {
                        let entry = #[trigger] result@[k];
                        &&& entry.location == start_location + 2 * k
                        &&& entry.value == (
                            self.memory@[start_location + 2 * k],
                            self.memory@[start_location + 2 * k + 1],
                        )
                        &&& entry.disassembly@ == disassembly(
                            Instruction::from_bytes(entry.value.0, entry.value.1),
                        )
                    },
            decreases length - index,
        {
            let first_location = start_location + index * 2;
            let first_value = self.memory.byte_at(first_location);
            let second_value = self.memory.byte_at(first_location + 1);
            let instruction = Instruction::new(first_value, second_value);
            let disassembly: String;
            let ghost unchanged = self.machine();

            let read = execute(
                false,
                instruction,
                &mut self.program_counter,
                &mut self.stack,
                &mut self.memory,
                &mut self.screen_memory,
                &mut self.variable_registers,
                &self.keypad,
                &mut self.index_register,
                &mut self.delay_timer,
                &mut self.sound_timer,
                &mut self.random,
                self.font_start,
            );
            proof {
                let polled = choose|polled: Polled|
                    polled.keys.len() == 16 && #[trigger] outcome(
                        read,
                        self.machine(),
                        false,
                        instruction,
                        unchanged,
                        self.font_start,
                        polled,
                    );
                assert(self.machine() == unchanged);
            }
            match read {
                Ok(result) => {
                    disassembly = result.instruction_disassembly;
                },
                Err(_) => {
                    disassembly = String::new();
                },
            }
            assert(disassembly@ =~= crate::machine::disassembly(instruction));

            result.push(
                PartialDisassembleSnapshot {
                    location: first_location,
                    value: (first_value, second_value),
                    disassembly,
                },
            );
            index += 1;
        }

        result
    }

    /// The state of the session at this moment, with a window on the program around the
    /// program counter. The machine stays as it is.
    pub fn create_snapshot(&mut self, disassemble_options: PartialDisassembleOptions) -> (result:
        InterpreterSnapshot)
        ensures
            final(self).font_start() == old(self).font_start(),
            final(self).glyphs() == old(self).glyphs(),
            final(self).machine() == old(self).machine(),
            result.program_counter_position == old(self).machine().program_counter,
            result.index_register_value == old(self).machine().index_register,
            result.variable_register_values@ == old(self).machine().registers,
            result.delay_timer_value == old(self).machine().delay_timer,
            result.sound_timer_value == old(self).machine().sound_timer,
            is_window(result.partial_disassemble@, old(self).machine(), disassemble_options),
    {
        InterpreterSnapshot {
            program_counter_position: traits::ProgramCounter::get_position(&self.program_counter),
            index_register_value: self.index_register,
            variable_register_values: self.variable_registers.get_all(),
            delay_timer_value: traits::Timer::get(&self.delay_timer),
            sound_timer_value: traits::Timer::get(&self.sound_timer),
            partial_disassemble: self.create_partial_disassemble_snapshot(disassemble_options),
        }
    }
}

} // verus!
