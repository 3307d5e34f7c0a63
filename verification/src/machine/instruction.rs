use vstd::prelude::*;

verus! {

/// One decoded instruction. Fields named `v`, `vx`, `vy` and `n` are register
/// numbers, `value` is an immediate, `address` a 12-bit address. In the two
/// skips on a key, `v` is the digit of the key that is looked at.
#[derive(Clone, Copy, Debug, PartialEq, Eq, Structural)]
#[allow(inconsistent_fields)]
pub enum Instruction {
    Add { vx: usize, vy: usize },
    AddIndex { v: usize },
    AddRegister { v: usize, value: u8 },
    And { vx: usize, vy: usize },
    BcdConversion { v: usize },
    ClearScreen,
    DelayTimerLoad { v: usize },
    DelayTimerSet { v: usize },
    Display { vx: usize, vy: usize, pixels: u8 },
    GetKey { v: usize },
    Jump { address: u16 },
    Load { n: usize },
    LoadFontChar { v: usize },
    MachineLanguageRoutine { address: u16 },
    Or { vx: usize, vy: usize },
    Random { v: usize, value: u8 },
    SetIndex { value: u16 },
    SetImmediate { v: usize, value: u8 },
    SetRegister { vx: usize, vy: usize },
    ShiftLeft { vx: usize, vy: usize },
    ShiftRight { vx: usize, vy: usize },
    SkipEqual { v: usize, value: u8 },
    SkipEqualReg { vx: usize, vy: usize },
    SkipIfKeyNotPressed { v: usize },
    SkipIfKeyPressed { v: usize },
    SkipNotEqual { v: usize, value: u8 },
    SkipNotEqualReg { vx: usize, vy: usize },
    SoundTimerSet { v: usize },
    Store { n: usize },
    Subtract { vx: usize, vy: usize },
    SubtractRev { vx: usize, vy: usize },
    SubroutineCall { address: u16 },
    SubroutineReturn,
    Xor { vx: usize, vy: usize },
}

/// The first hexadecimal digit of an opcode, which selects the instruction family.
pub open spec fn family(op_code: u16) -> int {
    op_code as int / 0x1000
}

/// The second hexadecimal digit of an opcode (`X`).
pub open spec fn field_x(op_code: u16) -> usize {
    ((op_code as int / 0x100) % 0x10) as usize
}

/// The third hexadecimal digit of an opcode (`Y`).
pub open spec fn field_y(op_code: u16) -> usize {
    ((op_code as int / 0x10) % 0x10) as usize
}

/// The last hexadecimal digit of an opcode (`N`).
pub open spec fn field_n(op_code: u16) -> u8 {
    (op_code as int % 0x10) as u8
}

/// The low byte of an opcode (`NN`).
pub open spec fn field_nn(op_code: u16) -> u8 {
    (op_code as int % 0x100) as u8
}

/// The low twelve bits of an opcode (`NNN`).
pub open spec fn field_nnn(op_code: u16) -> u16 {
    (op_code as int % 0x1000) as u16
}

/// The instruction that an opcode stands for, or `None` where it stands for none.
pub open spec fn decode(op_code: u16) -> Option<Instruction> {
    let x = field_x(op_code);
    let y = field_y(op_code);
    let n = field_n(op_code);
    let nn = field_nn(op_code);
    let nnn = field_nnn(op_code);
    let top = family(op_code);
    if top == 0x0 {
        if nnn == 0x0E0 {
            Some(Instruction::ClearScreen)
        } else if nnn == 0x0EE {
            Some(Instruction::SubroutineReturn)
        } else {
            Some(Instruction::MachineLanguageRoutine { address: nnn })
        }
    } else if top == 0x1 {
        Some(Instruction::Jump { address: nnn })
    } else if top == 0x2 {
        Some(Instruction::SubroutineCall { address: nnn })
    } else if top == 0x3 {
        Some(Instruction::SkipEqual { v: x, value: nn })
    } else if top == 0x4 {
        Some(Instruction::SkipNotEqual { v: x, value: nn })
    } else if top == 0x5 {
        Some(Instruction::SkipEqualReg { vx: x, vy: y })
    } else if top == 0x6 {
        Some(Instruction::SetImmediate { v: x, value: nn })
    } else if top == 0x7 {
        Some(Instruction::AddRegister { v: x, value: nn })
    } else if top == 0x8 {
        if n == 0x0 {
            Some(Instruction::SetRegister { vx: x, vy: y })
        } else if n == 0x1 {
            Some(Instruction::Or { vx: x, vy: y })
        } else if n == 0x2 {
            Some(Instruction::And { vx: x, vy: y })
        } else if n == 0x3 {
            Some(Instruction::Xor { vx: x, vy: y })
        } else if n == 0x4 {
            Some(Instruction::Add { vx: x, vy: y })
        } else if n == 0x5 {
            Some(Instruction::Subtract { vx: x, vy: y })
        } else if n == 0x6 {
            Some(Instruction::ShiftRight { vx: x, vy: y })
        } else if n == 0x7 {
            Some(Instruction::SubtractRev { vx: x, vy: y })
        } else if n == 0xE {
            Some(Instruction::ShiftLeft { vx: x, vy: y })
        } else {
            None
        }
    } else if top == 0x9 {
        Some(Instruction::SkipNotEqualReg { vx: x, vy: y })
    } else if top == 0xA {
        Some(Instruction::SetIndex { value: nnn })
    } else if top == 0xC {
        Some(Instruction::Random { v: x, value: nn })
    } else if top == 0xD {
        Some(Instruction::Display { vx: x, vy: y, pixels: n })
    } else if top == 0xE {
        if nn == 0x9E {
            Some(Instruction::SkipIfKeyPressed { v: x })
        } else if nn == 0xA1 {
            Some(Instruction::SkipIfKeyNotPressed { v: x })
        } else {
            None
        }
    } else if top == 0xF {
        if nn == 0x07 {
            Some(Instruction::DelayTimerLoad { v: x })
        } else if nn == 0x0A {
            Some(Instruction::GetKey { v: x })
        } else if nn == 0x15 {
            Some(Instruction::DelayTimerSet { v: x })
        } else if nn == 0x18 {
            Some(Instruction::SoundTimerSet { v: x })
        } else if nn == 0x1E {
            Some(Instruction::AddIndex { v: x })
        } else if nn == 0x29 {
            Some(Instruction::LoadFontChar { v: x })
        } else if nn == 0x33 {
            Some(Instruction::BcdConversion { v: x })
        } else if nn == 0x55 {
            Some(Instruction::Store { n: x })
        } else if nn == 0x65 {
            Some(Instruction::Load { n: x })
        } else {
            None
        }
    } else {
        None
    }
}

impl Instruction {
    /// Every register that the instruction names exists: its number is below 16.
    pub open spec fn registers_in_range(&self) -> bool {
        match *self {
            Instruction::Add { vx, vy } => vx < 16 && vy < 16,
            Instruction::AddIndex { v } => v < 16,
            Instruction::AddRegister { v, value } => v < 16,
            Instruction::And { vx, vy } => vx < 16 && vy < 16,
            Instruction::BcdConversion { v } => v < 16,
            Instruction::ClearScreen => true,
            Instruction::DelayTimerLoad { v } => v < 16,
            Instruction::DelayTimerSet { v } => v < 16,
            Instruction::Display { vx, vy, pixels } => vx < 16 && vy < 16,
            Instruction::GetKey { v } => v < 16,
            Instruction::Jump { address } => true,
            Instruction::Load { n } => n < 16,
            Instruction::LoadFontChar { v } => v < 16,
            Instruction::MachineLanguageRoutine { address } => true,
            Instruction::Or { vx, vy } => vx < 16 && vy < 16,
            Instruction::Random { v, value } => v < 16,
            Instruction::SetIndex { value } => true,
            Instruction::SetImmediate { v, value } => v < 16,
            Instruction::SetRegister { vx, vy } => vx < 16 && vy < 16,
            Instruction::ShiftLeft { vx, vy } => vx < 16 && vy < 16,
            Instruction::ShiftRight { vx, vy } => vx < 16 && vy < 16,
            Instruction::SkipEqual { v, value } => v < 16,
            Instruction::SkipEqualReg { vx, vy } => vx < 16 && vy < 16,
            Instruction::SkipIfKeyNotPressed { v } => v < 16,
            Instruction::SkipIfKeyPressed { v } => v < 16,
            Instruction::SkipNotEqual { v, value } => v < 16,
            Instruction::SkipNotEqualReg { vx, vy } => vx < 16 && vy < 16,
            Instruction::SoundTimerSet { v } => v < 16,
            Instruction::Store { n } => n < 16,
            Instruction::Subtract { vx, vy } => vx < 16 && vy < 16,
            Instruction::SubtractRev { vx, vy } => vx < 16 && vy < 16,
            Instruction::SubroutineCall { address } => true,
            Instruction::SubroutineReturn => true,
            Instruction::Xor { vx, vy } => vx < 16 && vy < 16,
        }
    }

    /// What holds of every decoded instruction: its registers exist, a sprite
    /// has at most 15 rows, and every address fits in twelve bits.
    pub open spec fn well_formed(&self) -> bool {
        &&& self.registers_in_range()
        &&& match *self {
            Instruction::Display { vx, vy, pixels } => pixels < 16,
            Instruction::Jump { address } => address < 0x1000,
            Instruction::MachineLanguageRoutine { address } => address < 0x1000,
            Instruction::SetIndex { value } => value < 0x1000,
            Instruction::SubroutineCall { address } => address < 0x1000,
            _ => true,
        }
    }

    /// Tests whether every register that the instruction names exists.
    pub fn has_registers_in_range(&self) -> (ok: bool)
        ensures
            ok == self.registers_in_range(),
    {
        match *self {
            Instruction::ClearScreen
            | Instruction::Jump { .. }
            | Instruction::MachineLanguageRoutine { .. }
            | Instruction::SetIndex { .. }
            | Instruction::SubroutineCall { .. }
            | Instruction::SubroutineReturn => true,
            Instruction::AddIndex { v }
            | Instruction::AddRegister { v, .. }
            | Instruction::BcdConversion { v }
            | Instruction::DelayTimerLoad { v }
            | Instruction::DelayTimerSet { v }
            | Instruction::GetKey { v }
            | Instruction::LoadFontChar { v }
            | Instruction::Random { v, .. }
            | Instruction::SetImmediate { v, .. }
            | Instruction::SkipEqual { v, .. }
            | Instruction::SkipIfKeyNotPressed { v }
            | Instruction::SkipIfKeyPressed { v }
            | Instruction::SkipNotEqual { v, .. }
            | Instruction::SoundTimerSet { v } => v < 16,
            Instruction::Load { n } | Instruction::Store { n } => n < 16,
            Instruction::Add { vx, vy }
            | Instruction::And { vx, vy }
            | Instruction::Display { vx, vy, .. }
            | Instruction::Or { vx, vy }
            | Instruction::SetRegister { vx, vy }
            | Instruction::ShiftLeft { vx, vy }
            | Instruction::ShiftRight { vx, vy }
            | Instruction::SkipEqualReg { vx, vy }
            | Instruction::SkipNotEqualReg { vx, vy }
            | Instruction::Subtract { vx, vy }
            | Instruction::SubtractRev { vx, vy }
            | Instruction::Xor { vx, vy } => vx < 16 && vy < 16,
        }
    }

    /// Decodes one opcode. Opcodes that stand for no instruction give `None`,
    /// whether their family is unknown or only their variant within it.
    pub fn from_op_code(op_code: u16) -> (decoded: Option<Instruction>)
        ensures
            decoded == decode(op_code),
            decoded matches Some(instruction) ==> instruction.well_formed(),
    {
        // precompute X, Y, N, NN and NNN nibbles
        let x: u16 = (op_code & 0x0F00) >> 8;
        let y: u16 = (op_code & 0x00F0) >> 4;
        let n: u16 = op_code & 0x000F;
        let nn: u8 = (op_code & 0x00FF) as u8;
        let nnn: u16 = op_code & 0x0FFF;
        let top: u16 = op_code & 0xF000;

        proof {
            assert((op_code & 0x0F00) >> 8 == (op_code / 0x100) % 0x10) by (bit_vector);
            assert((op_code & 0x00F0) >> 4 == (op_code / 0x10) % 0x10) by (bit_vector);
            assert(op_code & 0x000F == op_code % 0x10) by (bit_vector);
            assert(op_code & 0x00FF == op_code % 0x100) by (bit_vector);
            assert(op_code & 0x0FFF == op_code % 0x1000) by (bit_vector);
            assert(op_code & 0xF000 == (op_code / 0x1000) * 0x1000) by (bit_vector);
        }

        // match on first nibble and proceed from there
        match top {
            0x0000 => match nnn {
                0x0E0 => Some(Instruction::ClearScreen),
                0x0EE => Some(Instruction::SubroutineReturn),
                _ => Some(Instruction::MachineLanguageRoutine { address: nnn }),
            },
            0x1000 => Some(Instruction::Jump { address: nnn }),
            0x2000 => Some(Instruction::SubroutineCall { address: nnn }),
            0x3000 => Some(Instruction::SkipEqual { v: x as usize, value: nn }),
            0x4000 => Some(Instruction::SkipNotEqual { v: x as usize, value: nn }),
            0x5000 => Some(Instruction::SkipEqualReg { vx: x as usize, vy: y as usize }),
            0x6000 => Some(Instruction::SetImmediate { v: x as usize, value: nn }),
            0x7000 => Some(Instruction::AddRegister { v: x as usize, value: nn }),
            0x8000 => match n {
                0x0 => Some(Instruction::SetRegister { vx: x as usize, vy: y as usize }),
                0x1 => Some(Instruction::Or { vx: x as usize, vy: y as usize }),
                0x2 => Some(Instruction::And { vx: x as usize, vy: y as usize }),
                0x3 => Some(Instruction::Xor { vx: x as usize, vy: y as usize }),
                0x4 => Some(Instruction::Add { vx: x as usize, vy: y as usize }),
                0x5 => Some(Instruction::Subtract { vx: x as usize, vy: y as usize }),
                0x6 => Some(Instruction::ShiftRight { vx: x as usize, vy: y as usize }),
                0x7 => Some(Instruction::SubtractRev { vx: x as usize, vy: y as usize }),
                0xE => Some(Instruction::ShiftLeft { vx: x as usize, vy: y as usize }),
                _ => None,
            },
            0x9000 => Some(Instruction::SkipNotEqualReg { vx: x as usize, vy: y as usize }),
            0xA000 => Some(Instruction::SetIndex { value: nnn }),
            0xC000 => Some(Instruction::Random { v: x as usize, value: nn }),
            0xD000 => Some(Instruction::Display { vx: x as usize, vy: y as usize, pixels: n as u8 }),
            0xE000 => match nn {
                0x9E => Some(Instruction::SkipIfKeyPressed { v: x as usize }),
                0xA1 => Some(Instruction::SkipIfKeyNotPressed { v: x as usize }),
                _ => None,
            },
            0xF000 => match nn {
                0x07 => Some(Instruction::DelayTimerLoad { v: x as usize }),
                0x0A => Some(Instruction::GetKey { v: x as usize }),
                0x15 => Some(Instruction::DelayTimerSet { v: x as usize }),
                0x18 => Some(Instruction::SoundTimerSet { v: x as usize }),
                0x1E => Some(Instruction::AddIndex { v: x as usize }),
                0x29 => Some(Instruction::LoadFontChar { v: x as usize }),
                0x33 => Some(Instruction::BcdConversion { v: x as usize }),
                0x55 => Some(Instruction::Store { n: x as usize }),
                0x65 => Some(Instruction::Load { n: x as usize }),
                _ => None,
            },
            _ => None,
        }
    }
}

/// Decoding gives nothing exactly for these opcodes: family `B`; family `8`
/// with a last digit from `8` to `D` or `F`; family `E` with a low byte other
/// than `9E` and `A1`; family `F` with a low byte that names none of its nine
/// instructions. Every other opcode stands for an instruction, and that
/// instruction is well-formed.
pub proof fn lemma_decode_total(op_code: u16)
    ensures
        0 <= family(op_code) < 16,
        decode(op_code) is None <==> {
            let top = family(op_code);
            let n = field_n(op_code);
            let nn = field_nn(op_code);
            ||| top == 0xB
            ||| top == 0x8 && (0x8 <= n <= 0xD || n == 0xF)
            ||| top == 0xE && nn != 0x9E && nn != 0xA1
            ||| top == 0xF && nn != 0x07 && nn != 0x0A && nn != 0x15 && nn != 0x18 && nn != 0x1E
                && nn != 0x29 && nn != 0x33 && nn != 0x55 && nn != 0x65
        },
        decode(op_code) matches Some(instruction) ==> instruction.well_formed(),
{
}

/// Decoding depends on the opcode alone: the same opcode always gives the same
/// instruction, or always none.
pub proof fn lemma_decode_deterministic(first: u16, second: u16)
    requires
        first == second,
    ensures
        decode(first) == decode(second),
{
}

} // verus!
