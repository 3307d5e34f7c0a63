use vstd::prelude::*;
use vstd::string::*;
use crate::machine::instruction::Instruction;

verus! {

/// The character of one digit, for digits up to fifteen.
pub open spec fn digit_text(digit: int) -> Seq<char> {
    if digit == 0 {
        "0"@
    } else if digit == 1 {
        "1"@
    } else if digit == 2 {
        "2"@
    } else if digit == 3 {
        "3"@
    } else if digit == 4 {
        "4"@
    } else if digit == 5 {
        "5"@
    } else if digit == 6 {
        "6"@
    } else if digit == 7 {
        "7"@
    } else if digit == 8 {
        "8"@
    } else if digit == 9 {
        "9"@
    } else if digit == 10 {
        "a"@
    } else if digit == 11 {
        "b"@
    } else if digit == 12 {
        "c"@
    } else if digit == 13 {
        "d"@
    } else if digit == 14 {
        "e"@
    } else {
        "f"@
    }
}

/// A number in decimal, without leading zeros.
pub open spec fn decimal_text(n: nat) -> Seq<char>
    decreases n,
{
    if n < 10 {
        digit_text(n as int)
    } else {
        decimal_text(n / 10) + digit_text((n % 10) as int)
    }
}

/// A number in lower case hexadecimal, without leading zeros.
pub open spec fn hex_digits(n: nat) -> Seq<char>
    decreases n,
{
    if n < 16 {
        digit_text(n as int)
    } else {
        hex_digits(n / 16) + digit_text((n % 16) as int)
    }
}

/// A number in hexadecimal behind `0x`, with at least two digits.
pub open spec fn hex_text(n: nat) -> Seq<char> {
    if n < 16 {
        "0x0"@ + hex_digits(n)
    } else {
        "0x"@ + hex_digits(n)
    }
}

/// A mnemonic and the number of one register.
pub open spec fn text_v(name: Seq<char>, v: usize) -> Seq<char> {
    name + " v"@ + decimal_text(v as nat)
}

/// A mnemonic and the numbers of two registers.
pub open spec fn text_v_v(name: Seq<char>, vx: usize, vy: usize) -> Seq<char> {
    name + " v"@ + decimal_text(vx as nat) + " v"@ + decimal_text(vy as nat)
}

/// A mnemonic, the number of a register and an immediate.
pub open spec fn text_v_hex(name: Seq<char>, v: usize, value: nat) -> Seq<char> {
    name + " v"@ + decimal_text(v as nat) + " "@ + hex_text(value)
}

/// A mnemonic and an immediate.
pub open spec fn text_hex(name: Seq<char>, value: nat) -> Seq<char> {
    name + " "@ + hex_text(value)
}

/// A mnemonic and a count.
pub open spec fn text_count(name: Seq<char>, n: usize) -> Seq<char> {
    name + " "@ + decimal_text(n as nat)
}

/// The line that names an instruction: its mnemonic, then its operands,
/// registers as `v` and their number in decimal, immediates in hexadecimal.
pub open spec fn instruction_text(instruction: Instruction) -> Seq<char> {
    match instruction {
        Instruction::Add { vx, vy } => text_v_v("add"@, vx, vy),
        Instruction::AddIndex { v } => text_v("add_i"@, v),
        Instruction::AddRegister { v, value } => text_v_hex("add"@, v, value as nat),
        Instruction::And { vx, vy } => text_v_v("and"@, vx, vy),
        Instruction::BcdConversion { v } => text_v("bcd_cnv"@, v),
        Instruction::ClearScreen => "clear"@,
        Instruction::DelayTimerLoad { v } => text_v("delay_load"@, v),
        Instruction::DelayTimerSet { v } => text_v("delay_set"@, v),
        Instruction::Display { vx, vy, pixels } => text_v_v("disp"@, vx, vy) + " "@ + hex_text(
            pixels as nat,
        ),
        Instruction::GetKey { v } => text_v("get_key"@, v),
        Instruction::Jump { address } => text_hex("jump"@, address as nat),
        Instruction::Load { n } => text_count("load"@, n),
        Instruction::LoadFontChar { v } => text_v("load_font_ch"@, v),
        Instruction::MachineLanguageRoutine { address } => text_hex("mlr"@, address as nat),
        Instruction::Or { vx, vy } => text_v_v("or"@, vx, vy),
        Instruction::Random { v, value } => text_v_hex("rand"@, v, value as nat),
        Instruction::SetIndex { value } => text_hex("set i"@, value as nat),
        Instruction::SetImmediate { v, value } => text_v_hex("set"@, v, value as nat),
        Instruction::SetRegister { vx, vy } => text_v_v("set"@, vx, vy),
        Instruction::ShiftLeft { vx, vy } => text_v_v("shift_l"@, vx, vy),
        Instruction::ShiftRight { vx, vy } => text_v_v("shift_r"@, vx, vy),
        Instruction::SkipEqual { v, value } => text_v_hex("skip_eq"@, v, value as nat),
        Instruction::SkipEqualReg { vx, vy } => text_v_v("skip_eq_reg"@, vx, vy),
        Instruction::SkipIfKeyNotPressed { v } => text_v("skip_key"@, v),
        Instruction::SkipIfKeyPressed { v } => text_v("skip_not_key"@, v),
        Instruction::SkipNotEqual { v, value } => text_v_hex("skip_neq"@, v, value as nat),
        Instruction::SkipNotEqualReg { vx, vy } => text_v_v("skip_neq_reg"@, vx, vy),
        Instruction::SoundTimerSet { v } => text_v("sound_set"@, v),
        Instruction::Store { n } => text_count("store"@, n),
        Instruction::Subtract { vx, vy } => text_v_v("sub"@, vx, vy),
        Instruction::SubtractRev { vx, vy } => text_v_v("sub_rev"@, vx, vy),
        Instruction::SubroutineCall { address } => text_hex("sub_call"@, address as nat),
        Instruction::SubroutineReturn => "sub_ret"@,
        Instruction::Xor { vx, vy } => text_v_v("xor"@, vx, vy),
    }
}

fn digit_str(digit: usize) -> (text: &'static str)
    requires
        digit < 16,
    ensures
        text@ == digit_text(digit as int),
{
    match digit {
        0 => "0",
        1 => "1",
        2 => "2",
        3 => "3",
        4 => "4",
        5 => "5",
        6 => "6",
        7 => "7",
        8 => "8",
        9 => "9",
        10 => "a",
        11 => "b",
        12 => "c",
        13 => "d",
        14 => "e",
        _ => "f",
    }
}

fn push_decimal(out: &mut String, n: usize)
    ensures
        final(out)@ == old(out)@ + decimal_text(n as nat),
    decreases n,
{
    if n >= 10 {
        push_decimal(out, n / 10);
    }
    out.append(digit_str(n % 10));
}

fn push_hex_digits(out: &mut String, n: usize)
    ensures
        final(out)@ == old(out)@ + hex_digits(n as nat),
    decreases n,
{
    if n >= 16 {
        push_hex_digits(out, n / 16);
    }
    out.append(digit_str(n % 16));
}

fn push_hex(out: &mut String, n: usize)
    ensures
        final(out)@ == old(out)@ + hex_text(n as nat),
{
    if n < 16 {
        out.append("0x0");
    } else {
        out.append("0x");
    }
    push_hex_digits(out, n);
}

fn line_v(name: &str, v: usize) -> (line: String)
    ensures
        line@ == text_v(name@, v),
{
    let mut line: String = String::new();
    line.append(name);
    line.append(" v");
    push_decimal(&mut line, v);
    line
}

fn line_v_v(name: &str, vx: usize, vy: usize) -> (line: String)
    ensures
        line@ == text_v_v(name@, vx, vy),
{
    let mut line: String = line_v(name, vx);
    line.append(" v");
    push_decimal(&mut line, vy);
    line
}

fn line_v_hex(name: &str, v: usize, value: usize) -> (line: String)
    ensures
        line@ == text_v_hex(name@, v, value as nat),
{
    let mut line: String = line_v(name, v);
    line.append(" ");
    push_hex(&mut line, value);
    line
}

fn line_hex(name: &str, value: usize) -> (line: String)
    ensures
        line@ == text_hex(name@, value as nat),
{
    let mut line: String = String::new();
    line.append(name);
    line.append(" ");
    push_hex(&mut line, value);
    line
}

fn line_count(name: &str, n: usize) -> (line: String)
    ensures
        line@ == text_count(name@, n),
{
    let mut line: String = String::new();
    line.append(name);
    line.append(" ");
    push_decimal(&mut line, n);
    line
}

impl Instruction {
    /// The line that names the instruction, as a diagnostic shows it.
    pub fn to_text(&self) -> (line: String)
        ensures
            line@ == instruction_text(*self),
    {
        match *self {
            Instruction::Add { vx, vy } => line_v_v("add", vx, vy),
            Instruction::AddIndex { v } => line_v("add_i", v),
            Instruction::AddRegister { v, value } => line_v_hex("add", v, value as usize),
            Instruction::And { vx, vy } => line_v_v("and", vx, vy),
            Instruction::BcdConversion { v } => line_v("bcd_cnv", v),
            Instruction::ClearScreen => "clear".to_owned(),
            Instruction::DelayTimerLoad { v } => line_v("delay_load", v),
            Instruction::DelayTimerSet { v } => line_v("delay_set", v),
            Instruction::Display { vx, vy, pixels } => {
                let mut line: String = line_v_v("disp", vx, vy);
                line.append(" ");
                push_hex(&mut line, pixels as usize);
                line
            },
            Instruction::GetKey { v } => line_v("get_key", v),
            Instruction::Jump { address } => line_hex("jump", address as usize),
            Instruction::Load { n } => line_count("load", n),
            Instruction::LoadFontChar { v } => line_v("load_font_ch", v),
            Instruction::MachineLanguageRoutine { address } => line_hex("mlr", address as usize),
            Instruction::Or { vx, vy } => line_v_v("or", vx, vy),
            Instruction::Random { v, value } => line_v_hex("rand", v, value as usize),
            Instruction::SetIndex { value } => line_hex("set i", value as usize),
            Instruction::SetImmediate { v, value } => line_v_hex("set", v, value as usize),
            Instruction::SetRegister { vx, vy } => line_v_v("set", vx, vy),
            Instruction::ShiftLeft { vx, vy } => line_v_v("shift_l", vx, vy),
            Instruction::ShiftRight { vx, vy } => line_v_v("shift_r", vx, vy),
            Instruction::SkipEqual { v, value } => line_v_hex("skip_eq", v, value as usize),
            Instruction::SkipEqualReg { vx, vy } => line_v_v("skip_eq_reg", vx, vy),
            Instruction::SkipIfKeyNotPressed { v } => line_v("skip_key", v),
            Instruction::SkipIfKeyPressed { v } => line_v("skip_not_key", v),
            Instruction::SkipNotEqual { v, value } => line_v_hex("skip_neq", v, value as usize),
            Instruction::SkipNotEqualReg { vx, vy } => line_v_v("skip_neq_reg", vx, vy),
            Instruction::SoundTimerSet { v } => line_v("sound_set", v),
            Instruction::Store { n } => line_count("store", n),
            Instruction::Subtract { vx, vy } => line_v_v("sub", vx, vy),
            Instruction::SubtractRev { vx, vy } => line_v_v("sub_rev", vx, vy),
            Instruction::SubroutineCall { address } => line_hex("sub_call", address as usize),
            Instruction::SubroutineReturn => "sub_ret".to_owned(),
            Instruction::Xor { vx, vy } => line_v_v("xor", vx, vy),
        }
    }
}

} // verus!
