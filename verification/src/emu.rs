use vstd::prelude::*;
use crate::keys::Key;
use crate::keys::KeyState;
use crate::machine::cpu::Mode;
use crate::machine::cpu::CPU;
use crate::machine::memory::block_written;
use crate::machine::memory::RAM;
use crate::machine::model::can_tick;
use crate::machine::model::machine;
use crate::machine::model::next_opcode;
use crate::machine::model::ticked;
use crate::machine::model::ticking_draw_fits;
use crate::machine::model::CpuState;
use crate::machine::model::Machine;
use crate::machine::Font;
use crate::machine::Program;
use crate::machine::FONT_START_ADDR;
use crate::machine::MAX_PROGRAM_SIZE;
use crate::screen::blank;
use crate::screen::DisplayState;
use crate::PROGRAM_START_ADDR;

verus! {

/// How often per second the two timers count down.
pub const TIMER_HZ: u128 = 60;

/// Side of the square, in window pixels, that shows one display pixel.
pub const WINDOW_SCALE: i32 = 10;

/// What a run is configured with.
#[derive(Clone, Debug)]
pub struct Config {
    pub mode: Mode,
    pub instructions_per_sec: u16,
    pub font: Font,
}

/// What the release of a keyboard key asks the emulator to do.
#[derive(Clone, Copy, Debug, PartialEq, Eq, Structural)]
pub enum KeyCommand {
    /// Leave the run loop.
    Quit,
    /// Mark a key of the keypad pressed.
    Press(Key),
    /// The key means nothing to the emulator.
    Ignore,
}

/// What became of a tick clock reading.
#[derive(Clone, Copy, Debug, PartialEq, Eq, Structural)]
pub enum TickOutcome {
    /// Too little time has passed; nothing was done.
    NotDue,
    /// One instruction cycle ran, on the opcode given, and the keypad was reset.
    Ran { op_code: u16 },
    /// A cycle was due, but the processor cannot run it: the program counter or
    /// an operand points outside memory. Nothing was done.
    Fault,
}

/// What became of a timer clock reading.
#[derive(Clone, Copy, Debug, PartialEq, Eq, Structural)]
pub struct TimerOutcome {
    /// Whether the timers counted down.
    pub ran: bool,
    /// Whether the sound timer is still running after they did.
    pub beep: bool,
}

/// The keypad layout on a keyboard: the four rows `1234`, `qwer`, `asdf` and
/// `zxcv` stand for the keypad's rows `123C`, `456D`, `789E` and `A0BF`; the
/// escape key ends the run.
pub open spec fn key_command(key: char) -> KeyCommand {
    if key == '\u{1b}' {
        KeyCommand::Quit
    } else if key == '1' {
        KeyCommand::Press(Key::Num1)
    } else if key == '2' {
        KeyCommand::Press(Key::Num2)
    } else if key == '3' {
        KeyCommand::Press(Key::Num3)
    } else if key == '4' {
        KeyCommand::Press(Key::C)
    } else if key == 'q' {
        KeyCommand::Press(Key::Num4)
    } else if key == 'w' {
        KeyCommand::Press(Key::Num5)
    } else if key == 'e' {
        KeyCommand::Press(Key::Num6)
    } else if key == 'r' {
        KeyCommand::Press(Key::D)
    } else if key == 'a' {
        KeyCommand::Press(Key::Num7)
    } else if key == 's' {
        KeyCommand::Press(Key::Num8)
    } else if key == 'd' {
        KeyCommand::Press(Key::Num9)
    } else if key == 'f' {
        KeyCommand::Press(Key::E)
    } else if key == 'z' {
        KeyCommand::Press(Key::A)
    } else if key == 'x' {
        KeyCommand::Press(Key::Num0)
    } else if key == 'c' {
        KeyCommand::Press(Key::B)
    } else if key == 'v' {
        KeyCommand::Press(Key::F)
    } else {
        KeyCommand::Ignore
    }
}

/// The keypad after a keyboard key was released.
pub open spec fn keys_after_release(keys: Seq<bool>, key: char) -> Seq<bool> {
    match key_command(key) {
        KeyCommand::Press(pressed) => keys.update(pressed.spec_idx() as int, true),
        _ => keys,
    }
}

/// Display position, in row-major order, of the `k`-th pixel in the order in
/// which a frame is painted: column after column, each from the top.
pub open spec fn painted_pixel(k: int) -> int {
    (k % 32) * 64 + k / 32
}

/// Top left corner, in window coordinates, of the square that shows the `k`-th
/// pixel in painting order.
pub open spec fn cell_corner(k: int) -> (i32, i32) {
    (((k / 32) * WINDOW_SCALE) as i32, ((k % 32) * WINDOW_SCALE) as i32)
}

/// The corners of the squares to paint for `display`: one for each set pixel,
/// in painting order.
pub open spec fn lit_cells(display: Seq<bool>) -> Seq<(i32, i32)> {
    Seq::new(2048, |k: int| k).filter(|k: int| display[painted_pixel(k)]).map_values(
        |k: int| cell_corner(k),
    )
}

/// The whole emulator: configuration, processor, memory, display and keypad.
#[derive(Clone, Debug)]
pub struct Emu {
    config: Config,
    cpu: CPU,
    memory: RAM,
    display: DisplayState,
    keyboard: KeyState,
}

impl Emu {
    /// Processor, memory and display.
    pub closed spec fn state(&self) -> Machine {
        machine(self.cpu@, self.memory@, self.display@)
    }

    /// The keypad's flags.
    pub closed spec fn keys(&self) -> Seq<bool> {
        self.keyboard@
    }

    /// The configuration that the emulator was made with.
    pub closed spec fn settings(&self) -> Config {
        self.config
    }

    /// Time between two instruction cycles, in milliseconds.
    pub open spec fn spec_min_ms_per_tick(&self) -> int {
        1000int / (self.settings().instructions_per_sec as int)
    }

    /// An emulator that has not run yet: the processor in the configured mode,
    /// the glyph table installed in an otherwise empty memory, a blank display
    /// and no key pressed.
    pub fn new(config: Config) -> (emu: Self)
        ensures
            emu.settings() == config,
            emu.state() == machine(
                CpuState::initial(config.mode),
                block_written(
                    Seq::new(4096, |a: int| 0u8),
                    FONT_START_ADDR as int,
                    config.font.glyphs(),
                ),
                blank(),
            ),
            emu.keys() == Seq::new(16, |k: int| false),
    {
        let mut memory = RAM::new();

        config.font.load(&mut memory);

        let cpu = CPU::with_mode(config.mode);
        Self { config, cpu, memory, display: DisplayState::default(), keyboard: KeyState::default() }
    }

    /// Installs `program` at `PROGRAM_START_ADDR`.
    pub fn load_program(&mut self, program: Program)
        requires
            program.image().len() <= MAX_PROGRAM_SIZE,
        ensures
            final(self).state() == machine(
                old(self).state().cpu,
                block_written(old(self).state().memory, PROGRAM_START_ADDR as int, program.image()),
                old(self).state().display,
            ),
            final(self).keys() == old(self).keys(),
            final(self).settings() == old(self).settings(),
    {
        program.load(&mut self.memory);
    }

    pub fn cpu(&self) -> (cpu: &CPU)
        ensures
            cpu@ == self.state().cpu,
    {
        &self.cpu
    }

    pub fn memory(&self) -> (memory: &RAM)
        ensures
            memory@ == self.state().memory,
    {
        &self.memory
    }

    pub fn display(&self) -> (display: &DisplayState)
        ensures
            display@ == self.state().display,
    {
        &self.display
    }

    pub fn keyboard(&self) -> (keyboard: &KeyState)
        ensures
            keyboard@ == self.keys(),
    {
        &self.keyboard
    }

    /// Time between two instruction cycles, in whole milliseconds.
    pub fn min_ms_per_tick(&self) -> (ms: u128)
        requires
            self.settings().instructions_per_sec > 0,
        ensures
            ms == self.spec_min_ms_per_tick(),
    {
        1000_u128 / self.config.instructions_per_sec as u128
    }

    /// Time between two steps of the timers, in whole milliseconds.
    pub fn min_ms_per_timer_dec() -> (ms: u128)
        ensures
            ms == 1000int / 60,
    {
        1000_u128 / TIMER_HZ
    }

    /// What the release of keyboard key `key` asks for.
    pub fn key_command(key: char) -> (command: KeyCommand)
        ensures
            command == key_command(key),
    {
        match key {
            '\u{1b}' => KeyCommand::Quit,
            '1' => KeyCommand::Press(Key::Num1),
            '2' => KeyCommand::Press(Key::Num2),
            '3' => KeyCommand::Press(Key::Num3),
            '4' => KeyCommand::Press(Key::C),
            'q' => KeyCommand::Press(Key::Num4),
            'w' => KeyCommand::Press(Key::Num5),
            'e' => KeyCommand::Press(Key::Num6),
            'r' => KeyCommand::Press(Key::D),
            'a' => KeyCommand::Press(Key::Num7),
            's' => KeyCommand::Press(Key::Num8),
            'd' => KeyCommand::Press(Key::Num9),
            'f' => KeyCommand::Press(Key::E),
            'z' => KeyCommand::Press(Key::A),
            'x' => KeyCommand::Press(Key::Num0),
            'c' => KeyCommand::Press(Key::B),
            'v' => KeyCommand::Press(Key::F),
            _ => KeyCommand::Ignore,
        }
    }

    /// Takes in the release of keyboard key `key`: a key of the layout is
    /// marked pressed on the keypad. Returns whether the run is to end.
    pub fn key_released(&mut self, key: char) -> (quit: bool)
        ensures
            quit == (key_command(key) == KeyCommand::Quit),
            final(self).keys() == keys_after_release(old(self).keys(), key),
            final(self).state() == old(self).state(),
            final(self).settings() == old(self).settings(),
    {
        match Self::key_command(key) {
            KeyCommand::Quit => true,
            KeyCommand::Press(pressed) => {
                self.keyboard.mark_key_pressed(pressed);
                false
            },
            KeyCommand::Ignore => false,
        }
    }

    /// Takes in a reading of the tick clock: `elapsed_ms` milliseconds have
    /// passed since the last cycle. Where a cycle is due and the processor can
    /// run it, it runs, and the keypad is reset.
    pub fn tick_clock(&mut self, elapsed_ms: u128) -> (outcome: TickOutcome)
        requires
            old(self).settings().instructions_per_sec > 0,
        ensures
            final(self).settings() == old(self).settings(),
            outcome is NotDue <==> elapsed_ms < old(self).spec_min_ms_per_tick(),
            outcome is Fault <==> elapsed_ms >= old(self).spec_min_ms_per_tick() && !can_tick(
                old(self).state().cpu,
                old(self).state().memory,
            ),
            outcome !is Ran ==> final(self).state() == old(self).state(),
            outcome !is Ran ==> final(self).keys() == old(self).keys(),
            outcome matches TickOutcome::Ran { op_code } ==> op_code == next_opcode(
                old(self).state(),
            ),
            outcome is Ran ==> final(self).keys() == Seq::new(16, |k: int| false),
            outcome is Ran ==> exists|draw: u8|
                ticking_draw_fits(old(self).state().cpu, old(self).state().memory, draw)
                    && #[trigger] ticked(old(self).state(), old(self).keys(), draw)
                    == final(self).state(),
    {
        if elapsed_ms < self.min_ms_per_tick() {
            return TickOutcome::NotDue;
        }
        if !self.cpu.can_tick(&self.memory) {
            return TickOutcome::Fault;
        }
        let ghost before = self.state();
        let op_code: u16 = self.cpu.peek(&self.memory);
        self.cpu.tick(&mut self.memory, &mut self.display, &self.config.font, &self.keyboard);
        proof {
            let draw = choose|draw: u8|
                ticking_draw_fits(before.cpu, before.memory, draw) && machine(
                    self.cpu@,
                    self.memory@,
                    self.display@,
                ) == #[trigger] ticked(before, self.keyboard@, draw);
            assert(ticked(old(self).state(), old(self).keys(), draw) == self.state());
        }
        self.keyboard.reset();
        TickOutcome::Ran { op_code }
    }

    /// Takes in a reading of the timer clock: `elapsed_ms` milliseconds have
    /// passed since the timers last counted down. Where a step is due, both
    /// timers count down.
    pub fn timer_clock(&mut self, elapsed_ms: u128) -> (outcome: TimerOutcome)
        ensures
            final(self).settings() == old(self).settings(),
            final(self).keys() == old(self).keys(),
            outcome.ran == (elapsed_ms >= 1000int / 60),
            outcome.ran ==> final(self).state() == old(self).state().with_cpu(
                old(self).state().cpu.timers_decremented(),
            ),
            !outcome.ran ==> final(self).state() == old(self).state(),
            outcome.beep == (outcome.ran && final(self).state().cpu.sound_timer > 0),
    {
        if elapsed_ms < Self::min_ms_per_timer_dec() {
            return TimerOutcome { ran: false, beep: false };
        }
        self.cpu.dec_timers();
        TimerOutcome { ran: true, beep: self.cpu.is_sound_playable() }
    }

    /// The squares to paint for the present display: the top left corner of
    /// each, in window coordinates, column after column.
    pub fn lit_cells(&self) -> (cells: Vec<(i32, i32)>)
        ensures
            cells@ == lit_cells(self.state().display),
    {
        let mut cells: Vec<(i32, i32)> = Vec::new();
        let mut c: u8 = 0;
        while c < crate::DISPLAY_PIXELS_WIDTH
            invariant
                c <= 64,
                cells@ == Seq::new((c * 32) as nat, |k: int| k).filter(
                    |k: int| self.display@[painted_pixel(k)],
                ).map_values(|k: int| cell_corner(k)),
            decreases 64 - c,
        {
            let mut r: u8 = 0;
            while r < crate::DISPLAY_PIXELS_HEIGHT
                invariant
                    c < 64,
                    r <= 32,
                    cells@ == Seq::new((c * 32 + r) as nat, |k: int| k).filter(
                        |k: int| self.display@[painted_pixel(k)],
                    ).map_values(|k: int| cell_corner(k)),
                decreases 32 - r,
            {
                let idx: i32 = (r as i32 * crate::DISPLAY_PIXELS_WIDTH as i32) + c as i32;
                proof {
                    let painted = c * 32 + r;
                    let before = Seq::new(painted as nat, |k: int| k);
                    let after = Seq::new((painted + 1) as nat, |k: int| k);
                    assert(after.drop_last() =~= before);
                    reveal_with_fuel(Seq::filter, 2);
                }

                if self.display.read_pixel(idx as u16) {
                    // the window is a factor of ten larger than the display grid
                    let x: i32 = (c as i32 % crate::DISPLAY_PIXELS_WIDTH as i32) * WINDOW_SCALE;
                    let y: i32 = (r as i32 % crate::DISPLAY_PIXELS_HEIGHT as i32) * WINDOW_SCALE;

                    cells.push((x, y));
                }
                r += 1;
            }
            c += 1;
        }
        cells
    }
}

/// A program that was loaded leaves the glyph table as it was installed.
pub proof fn lemma_program_keeps_font(memory: Seq<u8>, glyphs: Seq<u8>, image: Seq<u8>, k: int)
    requires
        memory.len() == 4096,
        glyphs.len() == 80,
        image.len() <= MAX_PROGRAM_SIZE,
        0 <= k < 80,
    ensures
        block_written(
            block_written(memory, FONT_START_ADDR as int, glyphs),
            PROGRAM_START_ADDR as int,
            image,
        )[FONT_START_ADDR + k] == glyphs[k],
{
}

} // verus!
