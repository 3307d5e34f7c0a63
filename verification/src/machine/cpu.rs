use vstd::prelude::*;
use crate::keys::Key;
use crate::keys::KeyState;
use crate::machine::memory::block_written;
use crate::machine::memory::RAM;
use crate::machine::model::cpu_performed;
use crate::machine::model::display_performed;
use crate::machine::model::can_execute;
use crate::machine::model::can_tick;
use crate::machine::model::draw_fits;
use crate::machine::model::executed;
use crate::machine::model::flag;
use crate::machine::model::machine;
use crate::machine::model::opcode_at;
use crate::machine::model::operand_span;
use crate::machine::model::ticked;
use crate::machine::model::ticking_draw_fits;
use crate::machine::model::CpuState;
use crate::machine::model::MAX_HISTORY_SIZE;
use crate::machine::model::PROGRAM_COUNTER_START;
use crate::machine::Font;
use crate::machine::sprite::lemma_sprite_row_done;
use crate::machine::sprite::lemma_sprite_rows_done;
use crate::machine::sprite::lemma_sprite_step;
use crate::machine::sprite::sprite_part_collides;
use crate::machine::sprite::sprite_part_drawn;
use crate::machine::sprite::visible_rows;
use crate::screen::DisplayState;
use crate::DISPLAY_PIXELS_HEIGHT;
use crate::DISPLAY_PIXELS_WIDTH;
use rand::rngs::ThreadRng;
use rand::Rng;
use std::collections::VecDeque;

pub use crate::machine::instruction::Instruction;

verus! {

/// `rand::rngs::ThreadRng`, the handle to the thread's random number generator.
/// Nothing is known of what it holds.
#[verifier::external_type_specification]
#[verifier::external_body]
pub struct ExThreadRng(ThreadRng);

/// `ThreadRng::clone` hands out another handle to the same generator. Nothing
/// is claimed of the handle.
pub assume_specification[ <ThreadRng as Clone>::clone ](generator: &ThreadRng) -> (handle:
    ThreadRng)
;

/// Calls `ThreadRng::default`, which hands out a handle to the thread's
/// generator. Nothing is claimed of the handle. The call takes no argument; it
/// panics only where the operating system has no entropy to seed the generator
/// with.
#[verifier::external_body]
fn thread_generator() -> (generator: ThreadRng) {
    ThreadRng::default()
}

/// Calls `rand::Rng::gen_range` on the range from 0 up to, not including,
/// `bound`. The call panics on an empty range, hence the `requires`. Claimed is
/// only that the number lies in the range; which one it is differs from call to
/// call.
#[verifier::external_body]
fn draw_below(generator: &mut ThreadRng, bound: u8) -> (drawn: u8)
    requires
        bound > 0,
    ensures
        drawn < bound,
{
    generator.gen_range(0..bound)
}

#[derive(Clone, Debug)]
struct Registers {
    vs: [u8; 16],
    i: u16,
}

impl Registers {
    fn set_f(&mut self, value: u8)
        ensures
            final(self).vs@ == old(self).vs@.update(15, value),
            final(self).i == old(self).i,
    {
        self.vs[15] = value;
    }
}

#[derive(Clone, Debug)]
struct Stack {
    data: Vec<u16>,
}

impl Stack {
    fn push(&mut self, address: u16)
        ensures
            final(self).data@ == old(self).data@.push(address),
    {
        self.data.push(address);
    }

    fn pop(&mut self) -> (address: Option<u16>)
        ensures
            old(self).data@.len() > 0 ==> address == Some(old(self).data@.last()),
            old(self).data@.len() > 0 ==> final(self).data@ == old(self).data@.drop_last(),
            old(self).data@.len() == 0 ==> address is None,
            old(self).data@.len() == 0 ==> final(self).data@ == old(self).data@,
    {
        self.data.pop()
    }
}

/// Which of the two historical behaviours the shift and the register block
/// instructions follow.
#[derive(Clone, Copy, Debug, PartialEq, Eq, Structural)]
pub enum Mode {
    Classic,
    Modern,
}

impl From<String> for Mode {
    fn from(value: String) -> (mode: Self) {
        let classic: String = "classic".to_owned();
        if value == classic {
            Mode::Classic
        } else {
            Mode::Modern
        }
    }
}

impl vstd::std_specs::convert::FromSpecImpl<String> for Mode {
    open spec fn obeys_from_spec() -> bool {
        true
    }

    /// `Classic` for the word `classic`, `Modern` for every other text.
    open spec fn from_spec(value: String) -> Mode {
        if value@ == "classic"@ {
            Mode::Classic
        } else {
            Mode::Modern
        }
    }
}

impl Default for Mode {
    fn default() -> (mode: Self)
        ensures
            mode == Mode::Modern,
    {
        Self::Modern
    }
}

/// Sum of two bytes cut to eight bits, and whether the cut lost anything.
fn overflowing_add(a: u8, b: u8) -> (r: (u8, bool))
    ensures
        r.0 == (a + b) % 256,
        r.1 == (a + b > 255),
{
    (a.wrapping_add(b), a > 255 - b)
}

/// Difference of two bytes cut to eight bits, and whether it went below zero.
fn overflowing_sub(a: u8, b: u8) -> (r: (u8, bool))
    ensures
        r.0 == (a - b) % 256,
        r.1 == (a < b),
{
    (a.wrapping_sub(b), a < b)
}

/// The processor: registers, program counter, call stack, timers and the
/// history of executed instructions.
#[derive(Clone, Debug)]
pub struct CPU {
    mode: Mode,
    registers: Registers,
    prog_counter: u16,
    stack: Stack,
    delay_timer: u8,
    sound_timer: u8,
    history: VecDeque<Instruction>,
    rand_gen: ThreadRng,
}

impl View for CPU {
    type V = CpuState;

    closed spec fn view(&self) -> CpuState {
        CpuState {
            mode: self.mode,
            vs: self.registers.vs@,
            index: self.registers.i,
            pc: self.prog_counter,
            stack: self.stack.data@,
            delay_timer: self.delay_timer,
            sound_timer: self.sound_timer,
            history: self.history@,
        }
    }
}

impl CPU {
    /// Every processor has sixteen registers.
    pub proof fn lemma_registers(&self)
        ensures
            self@.vs.len() == 16,
    {
    }

    /// A processor in `Modern` mode that has not run yet.
    pub fn new() -> (cpu: Self)
        ensures
            cpu@ == CpuState::initial(Mode::Modern),
    {
        Self::default()
    }

    /// A processor in the given mode that has not run yet.
    pub fn with_mode(mode: Mode) -> (cpu: Self)
        ensures
            cpu@ == CpuState::initial(mode),
    {
        Self {
            mode,
            registers: Registers { vs: [0;16], i: 0 },
            prog_counter: PROGRAM_COUNTER_START,
            stack: Stack { data: Vec::new() },
            delay_timer: 0,
            sound_timer: 0,
            history: VecDeque::with_capacity(MAX_HISTORY_SIZE),
            rand_gen: thread_generator(),
        }
    }

    pub fn mode(&self) -> (mode: Mode)
        ensures
            mode == self@.mode,
    {
        self.mode
    }

    /// The value of register `v`.
    pub fn register(&self, v: usize) -> (value: u8)
        requires
            v < 16,
        ensures
            value == self@.v(v),
    {
        self.registers.vs[v]
    }

    /// The value of the index register.
    pub fn index(&self) -> (index: u16)
        ensures
            index == self@.index,
    {
        self.registers.i
    }

    pub fn program_counter(&self) -> (pc: u16)
        ensures
            pc == self@.pc,
    {
        self.prog_counter
    }

    pub fn delay_timer(&self) -> (ticks: u8)
        ensures
            ticks == self@.delay_timer,
    {
        self.delay_timer
    }

    pub fn sound_timer(&self) -> (ticks: u8)
        ensures
            ticks == self@.sound_timer,
    {
        self.sound_timer
    }

    /// Number of calls that have not returned yet.
    pub fn stack_depth(&self) -> (depth: usize)
        ensures
            depth == self@.stack.len(),
    {
        self.stack.data.len()
    }

    /// Number of remembered instructions.
    pub fn history_len(&self) -> (len: usize)
        ensures
            len == self@.history.len(),
    {
        self.history.len()
    }

    /// The remembered instruction at `position`, the oldest one at 0.
    pub fn history_at(&self, position: usize) -> (instruction: Instruction)
        requires
            position < self@.history.len(),
        ensures
            instruction == self@.history[position as int],
    {
        self.history[position]
    }

    /// Both timers move one step towards zero; a timer at zero stays there.
    pub fn dec_timers(&mut self)
        ensures
            final(self)@ == old(self)@.timers_decremented(),
    {
        if self.delay_timer > 0 {
            self.delay_timer -= 1;
        }
        if self.sound_timer > 0 {
            self.sound_timer -= 1;
        }
    }

    pub fn is_sound_playable(&self) -> (playable: bool)
        ensures
            playable == (self@.sound_timer > 0),
    {
        self.sound_timer > 0
    }

    /// Reads the opcode at the program counter: two bytes, the high one first.
    pub fn peek(&self, memory: &RAM) -> (op_code: u16)
        requires
            self@.pc + 1 < 4096,
        ensures
            op_code == opcode_at(memory@, self@.pc as int),
    {
        let high: u16 = memory.read(self.prog_counter) as u16;
        let low: u16 = memory.read(self.prog_counter + 1) as u16;

        assert((high << 8) | low == high * 0x100 + low) by (bit_vector)
            requires
                high < 0x100,
                low < 0x100,
        ;
        (high << 8) | low
    }

    /// Reads the opcode at the program counter and moves the counter on by two.
    pub fn fetch(&mut self, memory: &RAM) -> (op_code: u16)
        requires
            old(self)@.pc + 1 < 4096,
        ensures
            op_code == opcode_at(memory@, old(self)@.pc as int),
            final(self)@ == old(self)@.set_pc((old(self)@.pc + 2) as u16),
    {
        let op_code: u16 = self.peek(memory);

        self.prog_counter += 2;

        op_code
    }

    /// Number of memory bytes from the index register on that `instruction`
    /// touches.
    fn operand_span(&self, instruction: &Instruction) -> (span: u16)
        requires
            instruction.registers_in_range(),
        ensures
            span == operand_span(self@, *instruction),
            span <= 32,
    {
        match *instruction {
            Instruction::BcdConversion { .. } => 3,
            Instruction::Load { n } => n as u16 + 1,
            Instruction::Store { n } => n as u16 + 1,
            Instruction::Display { vy, pixels, .. } => {
                let y0: u8 = self.registers.vs[vy] % DISPLAY_PIXELS_HEIGHT;
                if pixels <= DISPLAY_PIXELS_HEIGHT - y0 {
                    pixels as u16
                } else {
                    (DISPLAY_PIXELS_HEIGHT - y0) as u16
                }
            },
            _ => 0,
        }
    }

    /// Tests whether `instruction` can be executed in the present state.
    pub fn can_execute(&self, instruction: &Instruction) -> (ok: bool)
        ensures
            ok == can_execute(self@, *instruction),
    {
        if !instruction.has_registers_in_range() {
            return false;
        }
        let span: u16 = self.operand_span(instruction);
        if span > 0 && self.registers.i > 4096 - span {
            return false;
        }
        match *instruction {
            Instruction::GetKey { .. } => self.prog_counter >= 2,
            Instruction::SkipEqual { .. }
            | Instruction::SkipEqualReg { .. }
            | Instruction::SkipIfKeyNotPressed { .. }
            | Instruction::SkipIfKeyPressed { .. }
            | Instruction::SkipNotEqual { .. }
            | Instruction::SkipNotEqualReg { .. } => self.prog_counter <= 0xFFFD,
            _ => true,
        }
    }

    /// Tests whether the next tick can run on `memory`.
    pub fn can_tick(&self, memory: &RAM) -> (ok: bool)
        ensures
            ok == can_tick(self@, memory@),
    {
        if self.prog_counter > 4094 {
            return false;
        }
        match Instruction::from_op_code(self.peek(memory)) {
            None => true,
            Some(instruction) => {
                let span: u16 = self.operand_span(&instruction);
                span == 0 || self.registers.i <= 4096 - span
            },
        }
    }

    /// Executes `instruction` and appends it to the history. A random
    /// instruction draws its number from the thread's generator; whatever it
    /// draws, the outcome is that of `apply` with a number that fits.
    pub fn execute(
        &mut self,
        instruction: Instruction,
        memory: &mut RAM,
        display: &mut DisplayState,
        font: &Font,
        keyboard: &KeyState,
    )
        requires
            can_execute(old(self)@, instruction),
        ensures
            exists|draw: u8|
                draw_fits(instruction, draw) && machine(final(self)@, final(memory)@, final(display)@)
                    == #[trigger] executed(
                    machine(old(self)@, old(memory)@, old(display)@),
                    instruction,
                    keyboard@,
                    draw,
                ),
    {
        let draw: u8 = match instruction {
            Instruction::Random { value, .. } => if value > 0 {
                draw_below(&mut self.rand_gen, value)
            } else {
                0
            },
            _ => 0,
        };
        self.apply(instruction, memory, display, font, keyboard, draw);
    }

    /// Runs one cycle: fetches the opcode at the program counter, decodes it and
    /// executes the instruction. An opcode that stands for no instruction is
    /// stepped over.
    pub fn tick(
        &mut self,
        memory: &mut RAM,
        display: &mut DisplayState,
        font: &Font,
        keyboard: &KeyState,
    )
        requires
            can_tick(old(self)@, old(memory)@),
        ensures
            exists|draw: u8|
                ticking_draw_fits(old(self)@, old(memory)@, draw) && machine(
                    final(self)@,
                    final(memory)@,
                    final(display)@,
                ) == #[trigger] ticked(
                    machine(old(self)@, old(memory)@, old(display)@),
                    keyboard@,
                    draw,
                ),
    {
        let ghost before = machine(self@, memory@, display@);
        let op_code: u16 = self.fetch(memory);
        let ghost after_fetch = machine(self@, memory@, display@);

        match Instruction::from_op_code(op_code) {
            None => {
                assert(after_fetch == ticked(before, keyboard@, 0));
            },
            Some(instruction) => {
                self.execute(instruction, memory, display, font, keyboard);
                proof {
                    let draw = choose|draw: u8|
                        draw_fits(instruction, draw) && machine(self@, memory@, display@)
                            == #[trigger] executed(after_fetch, instruction, keyboard@, draw);
                    assert(ticked(before, keyboard@, draw) == executed(
                        after_fetch,
                        instruction,
                        keyboard@,
                        draw,
                    ));
                }
            },
        }
    }

    /// Copies registers 0 to `n` into memory from the index register on. In
    /// `Classic` mode the index register ends behind the last byte written.
    fn store(&mut self, memory: &mut RAM, n: usize)
        requires
            n < 16,
            old(self)@.index + n + 1 <= 4096,
        ensures
            final(self)@ == cpu_performed(
                machine(old(self)@, old(memory)@, Seq::empty()),
                Instruction::Store { n },
                Seq::empty(),
                0,
            ),
            final(memory)@ == block_written(
                old(memory)@,
                old(self)@.index as int,
                old(self)@.vs.take(n + 1),
            ),
    {
        proof {
            memory.lemma_len();
        }
        let base: u16 = self.registers.i;
        let classic: bool = self.mode == Mode::Classic;
        let mut k: usize = 0;
        while k <= n
            invariant
                n < 16,
                k <= n + 1,
                base + n + 1 <= 4096,
                base == old(self)@.index,
                classic == (old(self)@.mode == Mode::Classic),
                memory@.len() == 4096,
                self@ == old(self)@.set_index(
                    if classic {
                        (base + k) as u16
                    } else {
                        base
                    },
                ),
                memory@ == block_written(old(memory)@, base as int, old(self)@.vs.take(k as int)),
            decreases n + 1 - k,
        {
            if classic {
                memory.write(self.registers.i, self.registers.vs[k]);
                self.registers.i += 1;
            } else {
                memory.write(self.registers.i + k as u16, self.registers.vs[k]);
            }
            k += 1;
        }
    }

    /// Fills registers 0 to `n` from memory, from the index register on. In
    /// `Classic` mode the index register ends behind the last byte read.
    fn load(&mut self, memory: &RAM, n: usize)
        requires
            n < 16,
            old(self)@.index + n + 1 <= 4096,
        ensures
            final(self)@ == cpu_performed(
                machine(old(self)@, memory@, Seq::empty()),
                Instruction::Load { n },
                Seq::empty(),
                0,
            ),
    {
        proof {
            memory.lemma_len();
        }
        let base: u16 = self.registers.i;
        let classic: bool = self.mode == Mode::Classic;
        let mut k: usize = 0;
        while k <= n
            invariant
                n < 16,
                k <= n + 1,
                base + n + 1 <= 4096,
                base == old(self)@.index,
                classic == (old(self)@.mode == Mode::Classic),
                self@ == (CpuState {
                    vs: Seq::new(
                        16,
                        |r: int|
                            if r < k {
                                memory@[base + r]
                            } else {
                                old(self)@.vs[r]
                            },
                    ),
                    index: if classic {
                        (base + k) as u16
                    } else {
                        base
                    },
                    ..old(self)@
                }),
            decreases n + 1 - k,
        {
            if classic {
                self.registers.vs[k] = memory.read(self.registers.i);
                self.registers.i += 1;
            } else {
                self.registers.vs[k] = memory.read(self.registers.i + k as u16);
            }
            k += 1;
        }
    }

    /// Executes `instruction`, with `draw` as the number that a random
    /// instruction draws, and appends the instruction to the history.
    pub fn apply(
        &mut self,
        instruction: Instruction,
        memory: &mut RAM,
        display: &mut DisplayState,
        font: &Font,
        keyboard: &KeyState,
        draw: u8,
    )
        requires
            can_execute(old(self)@, instruction),
        ensures
            machine(final(self)@, final(memory)@, final(display)@) == executed(
                machine(old(self)@, old(memory)@, old(display)@),
                instruction,
                keyboard@,
                draw,
            ),
    {
        proof {
            memory.lemma_len();
            display.lemma_len();
            keyboard.lemma_len();
        }
        match instruction {
            Instruction::Add { vx, vy } => {
                let (value, overflowed): (u8, bool) = overflowing_add(
                    self.registers.vs[vx],
                    self.registers.vs[vy],
                );

                self.registers.vs[vx] = value;

                if overflowed {
                    self.registers.set_f(1);
                } else {
                    self.registers.set_f(0);
                }
            },
            Instruction::AddIndex { v } => {
                self.registers.i = self.registers.i.wrapping_add(self.registers.vs[v] as u16);
                if self.registers.i >= 0x1000 {
                    self.registers.set_f(1);
                }
            },
            Instruction::AddRegister { v, value } => {
                let (result, _): (u8, bool) = overflowing_add(self.registers.vs[v], value);
                self.registers.vs[v] = result;
            },
            Instruction::And { vx, vy } => {
                self.registers.vs[vx] = self.registers.vs[vx] & self.registers.vs[vy];
            },
            Instruction::BcdConversion { v } => {
                let value: u8 = self.registers.vs[v];

                memory.write(self.registers.i, value / 100);
                memory.write(self.registers.i + 1, (value % 100) / 10);
                memory.write(self.registers.i + 2, value % 10);
            },
            Instruction::ClearScreen => display.clear(),
            Instruction::DelayTimerLoad { v } => {
                self.registers.vs[v] = self.delay_timer;
            },
            Instruction::DelayTimerSet { v } => {
                self.delay_timer = self.registers.vs[v];
            },
            Instruction::Display { vx, vy, pixels } => {
                self.display(memory, display, vx, vy, pixels);
            },
            Instruction::GetKey { v } => {
                if let Some(key) = keyboard.get_pressed_key() {
                    self.registers.vs[v] = key;
                } else {
                    self.prog_counter -= 2;
                }
            },
            Instruction::Jump { address } => {
                self.prog_counter = address;
            },
            Instruction::Load { n } => self.load(memory, n),
            Instruction::LoadFontChar { v } => {
                let glyph: u8 = self.registers.vs[v];
                self.registers.i = font.char_addr(glyph);
            },
            Instruction::MachineLanguageRoutine { .. } => {},
            Instruction::Or { vx, vy } => {
                self.registers.vs[vx] = self.registers.vs[vx] | self.registers.vs[vy];
            },
            Instruction::Random { v, value } => {
                self.registers.vs[v] = draw & value;
            },
            Instruction::SetIndex { value } => {
                self.registers.i = value;
            },
            Instruction::SetImmediate { v, value } => {
                self.registers.vs[v] = value;
            },
            Instruction::SetRegister { vx, vy } => {
                self.registers.vs[vx] = self.registers.vs[vy];
            },
            Instruction::ShiftLeft { vx, vy } => {
                if self.mode == Mode::Classic {
                    self.registers.vs[vx] = self.registers.vs[vy];
                }
                let source: u8 = self.registers.vs[vx];
                let overflow: bool = (source & 0x80) != 0;
                let value: u8 = source << 1;
                assert((source & 0x80 != 0) == (source >= 0x80)) by (bit_vector);
                assert(source << 1 == (source * 2) % 256) by (bit_vector);

                self.registers.vs[vx] = value;

                if overflow {
                    self.registers.set_f(1)
                } else {
                    self.registers.set_f(0)
                };
            },
            Instruction::ShiftRight { vx, vy } => {
                if self.mode == Mode::Classic {
                    self.registers.vs[vx] = self.registers.vs[vy];
                }
                let source: u8 = self.registers.vs[vx];
                let underflow: bool = (source & 0x1) != 0;
                let value: u8 = source >> 1;
                assert((source & 0x1 != 0) == (source % 2 == 1)) by (bit_vector);
                assert(source >> 1 == source / 2) by (bit_vector);

                self.registers.vs[vx] = value;

                if underflow {
                    self.registers.set_f(1)
                } else {
                    self.registers.set_f(0)
                };
            },
            Instruction::SkipEqual { v, value } => {
                if self.registers.vs[v] == value {
                    self.prog_counter += 2;
                }
            },
            Instruction::SkipEqualReg { vx, vy } => {
                if self.registers.vs[vx] == self.registers.vs[vy] {
                    self.prog_counter += 2;
                }
            },
            Instruction::SkipIfKeyNotPressed { v } => {
                let key: Key = Key::from_idx(v);

                if !keyboard.is_key_pressed(key) {
                    self.prog_counter += 2;
                }
            },
            Instruction::SkipIfKeyPressed { v } => {
                let key: Key = Key::from_idx(v);

                if keyboard.is_key_pressed(key) {
                    self.prog_counter += 2;
                }
            },
            Instruction::SkipNotEqual { v, value } => {
                if self.registers.vs[v] != value {
                    self.prog_counter += 2;
                }
            },
            Instruction::SkipNotEqualReg { vx, vy } => {
                if self.registers.vs[vx] != self.registers.vs[vy] {
                    self.prog_counter += 2;
                }
            },
            Instruction::SoundTimerSet { v } => {
                self.sound_timer = self.registers.vs[v];
            },
            Instruction::Store { n } => self.store(memory, n),
            Instruction::Subtract { vx, vy } => {
                let minuend: u8 = self.registers.vs[vx];
                let subtrahend: u8 = self.registers.vs[vy];

                let (value, overflowed): (u8, bool) = overflowing_sub(minuend, subtrahend);

                self.registers.vs[vx] = value;

                if !overflowed {
                    self.registers.set_f(1);
                } else {
                    self.registers.set_f(0);
                }
            },
            Instruction::SubtractRev { vx, vy } => {
                let minuend: u8 = self.registers.vs[vy];
                let subtrahend: u8 = self.registers.vs[vx];

                let (value, overflowed): (u8, bool) = overflowing_sub(minuend, subtrahend);

                self.registers.vs[vx] = value;

                if !overflowed {
                    self.registers.set_f(1);
                } else {
                    self.registers.set_f(0);
                }
            },
            Instruction::SubroutineCall { address } => {
                self.stack.push(self.prog_counter);
                self.prog_counter = address;
            },
            Instruction::SubroutineReturn => match self.stack.pop() {
                Some(address) => {
                    self.prog_counter = address;
                },
                None => {},
            },
            Instruction::Xor { vx, vy } => {
                self.registers.vs[vx] = self.registers.vs[vx] ^ self.registers.vs[vy];
            },
        }

        self.remember(instruction);
    }

    /// Appends `instruction` to the history, which first loses its oldest entry
    /// where it is full.
    fn remember(&mut self, instruction: Instruction)
        ensures
            final(self)@ == old(self)@.remember(instruction),
    {
        if self.history.len() == MAX_HISTORY_SIZE {
            self.history.pop_front();
        }
        self.history.push_back(instruction);
    }

    /// Draws the sprite of `pixels` rows that starts at the index register, with
    /// its top left corner at the column and row that registers `vx` and `vy`
    /// give, wrapped to the display. The flags register tells whether a set
    /// pixel was unset.
    pub fn display(
        &mut self,
        memory: &RAM,
        display: &mut DisplayState,
        vx: usize,
        vy: usize,
        pixels: u8,
    )
        requires
            can_execute(old(self)@, Instruction::Display { vx, vy, pixels }),
        ensures
            final(self)@ == cpu_performed(
                machine(old(self)@, memory@, old(display)@),
                Instruction::Display { vx, vy, pixels },
                Seq::empty(),
                0,
            ),
            final(display)@ == display_performed(
                machine(old(self)@, memory@, old(display)@),
                Instruction::Display { vx, vy, pixels },
            ),
    {
        proof {
            memory.lemma_len();
            display.lemma_len();
        }
        let x0: u8 = self.registers.vs[vx] % DISPLAY_PIXELS_WIDTH;
        let y0: u8 = self.registers.vs[vy] % DISPLAY_PIXELS_HEIGHT;
        let base: u16 = self.registers.i;
        let ghost display0 = display@;
        let ghost cpu0 = self@;

        self.registers.set_f(0);

        let mut i: u8 = 0;
        while i < pixels && y0 + i < DISPLAY_PIXELS_HEIGHT
            invariant
                i <= pixels,
                x0 < 64,
                y0 < 32,
                y0 + i <= 32,
                cpu0.vs.len() == 16,
                base == cpu0.index,
                memory@.len() == 4096,
                display@.len() == 2048,
                display0.len() == 2048,
                visible_rows(y0 as int, pixels as int) > 0 ==> base + visible_rows(
                    y0 as int,
                    pixels as int,
                ) <= 4096,
                self@ == cpu0.set_flag(
                    flag(
                        sprite_part_collides(
                            display0,
                            memory@,
                            base as int,
                            x0 as int,
                            y0 as int,
                            i as int,
                            0,
                        ),
                    ),
                ),
                display@ == sprite_part_drawn(
                    display0,
                    memory@,
                    base as int,
                    x0 as int,
                    y0 as int,
                    i as int,
                    0,
                ),
            decreases pixels - i,
        {
            let b: u8 = memory.read(base + i as u16);
            let y: u8 = y0 + i;

            let mut j: u8 = 0;
            while j < 8 && x0 + j < DISPLAY_PIXELS_WIDTH
                invariant
                    i < pixels,
                    j <= 8,
                    cpu0.vs.len() == 16,
                    x0 < 64,
                    y0 < 32,
                    y == y0 + i,
                    y < 32,
                    x0 + j <= 64,
                    base == cpu0.index,
                    base + i < 4096,
                    b == memory@[base + i],
                    memory@.len() == 4096,
                    display@.len() == 2048,
                    display0.len() == 2048,
                    self@ == cpu0.set_flag(
                        flag(
                            sprite_part_collides(
                                display0,
                                memory@,
                                base as int,
                                x0 as int,
                                y0 as int,
                                i as int,
                                j as int,
                            ),
                        ),
                    ),
                    display@ == sprite_part_drawn(
                        display0,
                        memory@,
                        base as int,
                        x0 as int,
                        y0 as int,
                        i as int,
                        j as int,
                    ),
                decreases 8 - j,
            {
                let x: u8 = x0 + j;
                let px: u8 = b & (0x1 << (7 - j));
                let idx: u16 = y as u16 * DISPLAY_PIXELS_WIDTH as u16 + x as u16;

                let px_current: bool = display.read_pixel(idx);
                display.write_pixel(idx, px != 0);
                if px_current && px != 0 {
                    self.registers.set_f(1);
                }
                proof {
                    assert(0x1u8 << ((7 - j) as u8) == 0x80u8 >> j) by (bit_vector)
                        requires
                            j < 8,
                    ;
                    lemma_sprite_step(
                        display0,
                        memory@,
                        base as int,
                        x0 as int,
                        y0 as int,
                        i as int,
                        j as int,
                    );
                }
                j += 1;
            }
            proof {
                lemma_sprite_row_done(
                    display0,
                    memory@,
                    base as int,
                    x0 as int,
                    y0 as int,
                    i as int,
                    j as int,
                );
            }
            i += 1;
        }
        proof {
            lemma_sprite_rows_done(
                display0,
                memory@,
                base as int,
                x0 as int,
                y0 as int,
                i as int,
                pixels as int,
            );
        }
    }
}

impl Default for CPU {
    fn default() -> (cpu: Self)
        ensures
            cpu@ == CpuState::initial(Mode::Modern),
    {
        Self::with_mode(Mode::default())
    }
}

} // verus!
