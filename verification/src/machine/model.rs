use vstd::prelude::*;
use crate::keys::lowest_pressed;
use crate::machine::cpu::Mode;
use crate::machine::glyph_addr;
use crate::machine::instruction::decode;
use crate::machine::instruction::Instruction;
use crate::machine::memory::block_written;
use crate::machine::sprite::sprite_collides;
use crate::machine::sprite::sprite_drawn;
use crate::machine::sprite::visible_rows;

verus! {

/// Address of the first instruction that a fresh processor fetches.
pub const PROGRAM_COUNTER_START: u16 = 0x200;

/// Number of executed instructions that the processor remembers.
pub const MAX_HISTORY_SIZE: usize = 100;

/// The value that a condition leaves in the flags register.
pub open spec fn flag(raised: bool) -> u8 {
    if raised {
        1
    } else {
        0
    }
}

/// What a processor holds, as mathematical values.
#[verifier::ext_equal]
pub struct CpuState {
    pub mode: Mode,
    /// The sixteen general registers; the last one is the flags register.
    pub vs: Seq<u8>,
    /// The index register.
    pub index: u16,
    /// The program counter.
    pub pc: u16,
    /// Return addresses, the most recent call last.
    pub stack: Seq<u16>,
    pub delay_timer: u8,
    pub sound_timer: u8,
    /// The most recently executed instructions, the latest last.
    pub history: Seq<Instruction>,
}

impl CpuState {
    /// There are sixteen registers and the history is within its capacity.
    pub open spec fn well_formed(self) -> bool {
        &&& self.vs.len() == 16
        &&& self.history.len() <= MAX_HISTORY_SIZE
    }

    /// A processor that has not run yet.
    pub open spec fn initial(mode: Mode) -> CpuState {
        CpuState {
            mode,
            vs: Seq::new(16, |r: int| 0u8),
            index: 0,
            pc: PROGRAM_COUNTER_START,
            stack: Seq::empty(),
            delay_timer: 0,
            sound_timer: 0,
            history: Seq::empty(),
        }
    }

    /// The value of register `r`.
    pub open spec fn v(self, r: usize) -> u8 {
        self.vs[r as int]
    }

    pub open spec fn set_v(self, r: usize, value: u8) -> CpuState {
        CpuState { vs: self.vs.update(r as int, value), ..self }
    }

    /// Writes the flags register.
    pub open spec fn set_flag(self, value: u8) -> CpuState {
        self.set_v(15, value)
    }

    pub open spec fn set_index(self, index: u16) -> CpuState {
        CpuState { index, ..self }
    }

    pub open spec fn set_pc(self, pc: u16) -> CpuState {
        CpuState { pc, ..self }
    }

    /// Steps over the next instruction where `condition` holds.
    pub open spec fn skip_if(self, condition: bool) -> CpuState {
        if condition {
            self.set_pc((self.pc + 2) as u16)
        } else {
            self
        }
    }

    /// Appends `instruction` to the history; a full history first loses its
    /// oldest entry.
    pub open spec fn remember(self, instruction: Instruction) -> CpuState {
        let kept = if self.history.len() == MAX_HISTORY_SIZE {
            self.history.drop_first()
        } else {
            self.history
        };
        CpuState { history: kept.push(instruction), ..self }
    }

    /// Both timers one step nearer to zero, where they are not there yet.
    pub open spec fn timers_decremented(self) -> CpuState {
        CpuState {
            delay_timer: if self.delay_timer > 0 {
                (self.delay_timer - 1) as u8
            } else {
                0
            },
            sound_timer: if self.sound_timer > 0 {
                (self.sound_timer - 1) as u8
            } else {
                0
            },
            ..self
        }
    }

    /// The value that a shift instruction shifts.
    pub open spec fn shift_source(self, vx: usize, vy: usize) -> u8 {
        if self.mode == Mode::Classic {
            self.v(vy)
        } else {
            self.v(vx)
        }
    }
}

/// Processor, memory and display together: everything an instruction can change.
#[verifier::ext_equal]
pub struct Machine {
    pub cpu: CpuState,
    /// 4096 bytes, indexed by address.
    pub memory: Seq<u8>,
    /// 2048 pixels, row after row.
    pub display: Seq<bool>,
}

pub open spec fn machine(cpu: CpuState, memory: Seq<u8>, display: Seq<bool>) -> Machine {
    Machine { cpu, memory, display }
}

impl Machine {
    pub open spec fn well_formed(self) -> bool {
        &&& self.cpu.well_formed()
        &&& self.memory.len() == 4096
        &&& self.display.len() == 2048
    }

    pub open spec fn with_cpu(self, cpu: CpuState) -> Machine {
        Machine { cpu, ..self }
    }
}

/// Number of memory bytes, counted from the index register on, that an
/// instruction reads or writes.
pub open spec fn operand_span(cpu: CpuState, instruction: Instruction) -> int {
    match instruction {
        Instruction::BcdConversion { v } => 3,
        Instruction::Load { n } => n + 1,
        Instruction::Store { n } => n + 1,
        Instruction::Display { vx, vy, pixels } => visible_rows(
            cpu.v(vy) as int % 32,
            pixels as int,
        ),
        _ => 0,
    }
}

/// Whether `instruction` steps over the next one where its condition holds.
pub open spec fn is_skip(instruction: Instruction) -> bool {
    ||| instruction is SkipEqual
    ||| instruction is SkipEqualReg
    ||| instruction is SkipIfKeyNotPressed
    ||| instruction is SkipIfKeyPressed
    ||| instruction is SkipNotEqual
    ||| instruction is SkipNotEqualReg
}

/// Whether `instruction` can be executed in state `cpu`: the registers it
/// names and the memory it touches exist, and the program counter stays within
/// its sixteen bits.
pub open spec fn can_execute(cpu: CpuState, instruction: Instruction) -> bool {
    &&& instruction.registers_in_range()
    &&& operand_span(cpu, instruction) > 0 ==> cpu.index + operand_span(cpu, instruction) <= 4096
    &&& is_skip(instruction) ==> cpu.pc <= 0xFFFD
    &&& instruction is GetKey ==> cpu.pc >= 2
}

/// Whether `draw` can be the number drawn for `instruction`: for a random
/// instruction with a nonzero immediate it lies below the immediate.
pub open spec fn draw_fits(instruction: Instruction, draw: u8) -> bool {
    instruction matches Instruction::Random { v, value } ==> value == 0 || draw < value
}

/// Whether `draw` can be the number drawn in the tick that a processor in state
/// `cpu` runs next on `memory`.
pub open spec fn ticking_draw_fits(cpu: CpuState, memory: Seq<u8>, draw: u8) -> bool {
    decode(opcode_at(memory, cpu.pc as int)) matches Some(instruction) ==> draw_fits(
        instruction,
        draw,
    )
}

/// The processor after `instruction`, before the instruction is remembered.
pub open spec fn cpu_performed(
    m: Machine,
    instruction: Instruction,
    keys: Seq<bool>,
    draw: u8,
) -> CpuState {
    let cpu = m.cpu;
    match instruction {
        Instruction::Add { vx, vy } => {
            let sum = cpu.v(vx) + cpu.v(vy);
            cpu.set_v(vx, (sum % 256) as u8).set_flag(flag(sum > 255))
        },
        Instruction::AddIndex { v } => {
            let sum = (cpu.index + cpu.v(v)) % 0x1_0000;
            if sum >= 0x1000 {
                cpu.set_index(sum as u16).set_flag(1)
            } else {
                cpu.set_index(sum as u16)
            }
        },
        Instruction::AddRegister { v, value } => cpu.set_v(v, ((cpu.v(v) + value) % 256) as u8),
        Instruction::And { vx, vy } => cpu.set_v(vx, cpu.v(vx) & cpu.v(vy)),
        Instruction::BcdConversion { v } => cpu,
        Instruction::ClearScreen => cpu,
        Instruction::DelayTimerLoad { v } => cpu.set_v(v, cpu.delay_timer),
        Instruction::DelayTimerSet { v } => CpuState { delay_timer: cpu.v(v), ..cpu },
        Instruction::Display { vx, vy, pixels } => cpu.set_flag(
            flag(
                sprite_collides(
                    m.display,
                    m.memory,
                    cpu.index as int,
                    cpu.v(vx) as int % 64,
                    cpu.v(vy) as int % 32,
                    pixels as int,
                ),
            ),
        ),
        Instruction::GetKey { v } => match lowest_pressed(keys) {
            Some(key) => cpu.set_v(v, key),
            None => cpu.set_pc((cpu.pc - 2) as u16),
        },
        Instruction::Jump { address } => cpu.set_pc(address),
        Instruction::Load { n } => CpuState {
            vs: Seq::new(
                16,
                |r: int|
                    if r <= n {
                        m.memory[cpu.index + r]
                    } else {
                        cpu.vs[r]
                    },
            ),
            index: if cpu.mode == Mode::Classic {
                (cpu.index + n + 1) as u16
            } else {
                cpu.index
            },
            ..cpu
        },
        Instruction::LoadFontChar { v } => cpu.set_index(glyph_addr(cpu.v(v))),
        Instruction::MachineLanguageRoutine { address } => cpu,
        Instruction::Or { vx, vy } => cpu.set_v(vx, cpu.v(vx) | cpu.v(vy)),
        Instruction::Random { v, value } => cpu.set_v(v, draw & value),
        Instruction::SetIndex { value } => cpu.set_index(value),
        Instruction::SetImmediate { v, value } => cpu.set_v(v, value),
        Instruction::SetRegister { vx, vy } => cpu.set_v(vx, cpu.v(vy)),
        Instruction::ShiftLeft { vx, vy } => {
            let source = cpu.shift_source(vx, vy);
            cpu.set_v(vx, ((source * 2) % 256) as u8).set_flag(flag(source >= 0x80))
        },
        Instruction::ShiftRight { vx, vy } => {
            let source = cpu.shift_source(vx, vy);
            cpu.set_v(vx, source / 2).set_flag(flag(source % 2 == 1))
        },
        Instruction::SkipEqual { v, value } => cpu.skip_if(cpu.v(v) == value),
        Instruction::SkipEqualReg { vx, vy } => cpu.skip_if(cpu.v(vx) == cpu.v(vy)),
        Instruction::SkipIfKeyNotPressed { v } => cpu.skip_if(!keys[v as int]),
        Instruction::SkipIfKeyPressed { v } => cpu.skip_if(keys[v as int]),
        Instruction::SkipNotEqual { v, value } => cpu.skip_if(cpu.v(v) != value),
        Instruction::SkipNotEqualReg { vx, vy } => cpu.skip_if(cpu.v(vx) != cpu.v(vy)),
        Instruction::SoundTimerSet { v } => CpuState { sound_timer: cpu.v(v), ..cpu },
        Instruction::Store { n } => if cpu.mode == Mode::Classic {
            cpu.set_index((cpu.index + n + 1) as u16)
        } else {
            cpu
        },
        Instruction::Subtract { vx, vy } => {
            let difference = cpu.v(vx) - cpu.v(vy);
            cpu.set_v(vx, (difference % 256) as u8).set_flag(flag(difference >= 0))
        },
        Instruction::SubtractRev { vx, vy } => {
            let difference = cpu.v(vy) - cpu.v(vx);
            cpu.set_v(vx, (difference % 256) as u8).set_flag(flag(difference >= 0))
        },
        Instruction::SubroutineCall { address } => CpuState {
            stack: cpu.stack.push(cpu.pc),
            pc: address,
            ..cpu
        },
        Instruction::SubroutineReturn => if cpu.stack.len() > 0 {
            CpuState { stack: cpu.stack.drop_last(), pc: cpu.stack.last(), ..cpu }
        } else {
            cpu
        },
        Instruction::Xor { vx, vy } => cpu.set_v(vx, cpu.v(vx) ^ cpu.v(vy)),
    }
}

/// The memory after `instruction`.
pub open spec fn memory_performed(m: Machine, instruction: Instruction) -> Seq<u8> {
    let cpu = m.cpu;
    match instruction {
        Instruction::BcdConversion { v } => {
            let value = cpu.v(v);
            block_written(
                m.memory,
                cpu.index as int,
                seq![value / 100, (value % 100) / 10, value % 10],
            )
        },
        Instruction::Store { n } => block_written(
            m.memory,
            cpu.index as int,
            cpu.vs.take(n + 1),
        ),
        _ => m.memory,
    }
}

/// The display after `instruction`.
pub open spec fn display_performed(m: Machine, instruction: Instruction) -> Seq<bool> {
    let cpu = m.cpu;
    match instruction {
        Instruction::ClearScreen => Seq::new(m.display.len(), |p: int| false),
        Instruction::Display { vx, vy, pixels } => sprite_drawn(
            m.display,
            m.memory,
            cpu.index as int,
            cpu.v(vx) as int % 64,
            cpu.v(vy) as int % 32,
            pixels as int,
        ),
        _ => m.display,
    }
}

/// The machine after `instruction` was executed and remembered. `keys` are the
/// keypad's flags; `draw` is the number drawn, which only a random instruction
/// looks at.
pub open spec fn executed(
    m: Machine,
    instruction: Instruction,
    keys: Seq<bool>,
    draw: u8,
) -> Machine {
    Machine {
        cpu: cpu_performed(m, instruction, keys, draw).remember(instruction),
        memory: memory_performed(m, instruction),
        display: display_performed(m, instruction),
    }
}

/// The opcode that stands at `pc`: two bytes, the high one first.
pub open spec fn opcode_at(memory: Seq<u8>, pc: int) -> u16 {
    (memory[pc] * 0x100 + memory[pc + 1]) as u16
}

/// The machine after a fetch: the program counter has moved on by two.
pub open spec fn fetched(m: Machine) -> Machine {
    m.with_cpu(m.cpu.set_pc((m.cpu.pc + 2) as u16))
}

/// The opcode that the next fetch returns.
pub open spec fn next_opcode(m: Machine) -> u16 {
    opcode_at(m.memory, m.cpu.pc as int)
}

/// Whether a processor in state `cpu` can run one tick on `memory`: both bytes
/// of the opcode lie in memory, and the instruction that they stand for, if any,
/// can be executed once the program counter has moved on.
pub open spec fn can_tick(cpu: CpuState, memory: Seq<u8>) -> bool {
    &&& cpu.pc + 1 < 4096
    &&& decode(opcode_at(memory, cpu.pc as int)) matches Some(instruction) ==> can_execute(
        cpu.set_pc((cpu.pc + 2) as u16),
        instruction,
    )
}

/// The machine after one tick: fetch, then decode, then execute. An opcode that
/// stands for no instruction is stepped over.
pub open spec fn ticked(m: Machine, keys: Seq<bool>, draw: u8) -> Machine {
    match decode(next_opcode(m)) {
        Some(instruction) => executed(fetched(m), instruction, keys, draw),
        None => fetched(m),
    }
}

} // verus!
