use chipate::machine::cpu::Instruction;

#[test]
fn decodes_the_zero_family() {
    assert_eq!(Instruction::from_op_code(0x00E0), Some(Instruction::ClearScreen));
    assert_eq!(Instruction::from_op_code(0x00EE), Some(Instruction::SubroutineReturn));
    assert_eq!(
        Instruction::from_op_code(0x0123),
        Some(Instruction::MachineLanguageRoutine { address: 0x123 })
    );
    assert_eq!(
        Instruction::from_op_code(0x0000),
        Some(Instruction::MachineLanguageRoutine { address: 0x000 })
    );
}

#[test]
fn decodes_control_flow() {
    assert_eq!(Instruction::from_op_code(0x1234), Some(Instruction::Jump { address: 0x234 }));
    assert_eq!(
        Instruction::from_op_code(0x2FFF),
        Some(Instruction::SubroutineCall { address: 0xFFF })
    );
    assert_eq!(
        Instruction::from_op_code(0x3A42),
        Some(Instruction::SkipEqual { v: 0xA, value: 0x42 })
    );
    assert_eq!(
        Instruction::from_op_code(0x4B07),
        Some(Instruction::SkipNotEqual { v: 0xB, value: 0x07 })
    );
    assert_eq!(
        Instruction::from_op_code(0x5120),
        Some(Instruction::SkipEqualReg { vx: 1, vy: 2 })
    );
    assert_eq!(
        Instruction::from_op_code(0x9EF0),
        Some(Instruction::SkipNotEqualReg { vx: 0xE, vy: 0xF })
    );
}

#[test]
fn decodes_loads_and_immediates() {
    assert_eq!(
        Instruction::from_op_code(0x6C99),
        Some(Instruction::SetImmediate { v: 0xC, value: 0x99 })
    );
    assert_eq!(
        Instruction::from_op_code(0x7001),
        Some(Instruction::AddRegister { v: 0, value: 0x01 })
    );
    assert_eq!(Instruction::from_op_code(0xA2F0), Some(Instruction::SetIndex { value: 0x2F0 }));
    assert_eq!(
        Instruction::from_op_code(0xC37F),
        Some(Instruction::Random { v: 3, value: 0x7F })
    );
    assert_eq!(
        Instruction::from_op_code(0xD125),
        Some(Instruction::Display { vx: 1, vy: 2, pixels: 5 })
    );
}

#[test]
fn decodes_the_arithmetic_family() {
    assert_eq!(Instruction::from_op_code(0x8AB0), Some(Instruction::SetRegister { vx: 10, vy: 11 }));
    assert_eq!(Instruction::from_op_code(0x8AB1), Some(Instruction::Or { vx: 10, vy: 11 }));
    assert_eq!(Instruction::from_op_code(0x8AB2), Some(Instruction::And { vx: 10, vy: 11 }));
    assert_eq!(Instruction::from_op_code(0x8AB3), Some(Instruction::Xor { vx: 10, vy: 11 }));
    assert_eq!(Instruction::from_op_code(0x8AB4), Some(Instruction::Add { vx: 10, vy: 11 }));
    assert_eq!(Instruction::from_op_code(0x8AB5), Some(Instruction::Subtract { vx: 10, vy: 11 }));
    assert_eq!(Instruction::from_op_code(0x8AB6), Some(Instruction::ShiftRight { vx: 10, vy: 11 }));
    assert_eq!(Instruction::from_op_code(0x8AB7), Some(Instruction::SubtractRev { vx: 10, vy: 11 }));
    assert_eq!(Instruction::from_op_code(0x8ABE), Some(Instruction::ShiftLeft { vx: 10, vy: 11 }));
}

#[test]
fn decodes_the_key_family() {
    assert_eq!(Instruction::from_op_code(0xE59E), Some(Instruction::SkipIfKeyPressed { v: 5 }));
    assert_eq!(Instruction::from_op_code(0xE5A1), Some(Instruction::SkipIfKeyNotPressed { v: 5 }));
}

#[test]
fn decodes_the_f_family() {
    assert_eq!(Instruction::from_op_code(0xF207), Some(Instruction::DelayTimerLoad { v: 2 }));
    assert_eq!(Instruction::from_op_code(0xF20A), Some(Instruction::GetKey { v: 2 }));
    assert_eq!(Instruction::from_op_code(0xF215), Some(Instruction::DelayTimerSet { v: 2 }));
    assert_eq!(Instruction::from_op_code(0xF218), Some(Instruction::SoundTimerSet { v: 2 }));
    assert_eq!(Instruction::from_op_code(0xF21E), Some(Instruction::AddIndex { v: 2 }));
    assert_eq!(Instruction::from_op_code(0xF229), Some(Instruction::LoadFontChar { v: 2 }));
    assert_eq!(Instruction::from_op_code(0xF233), Some(Instruction::BcdConversion { v: 2 }));
    assert_eq!(Instruction::from_op_code(0xF255), Some(Instruction::Store { n: 2 }));
    assert_eq!(Instruction::from_op_code(0xF265), Some(Instruction::Load { n: 2 }));
}

#[test]
fn unknown_variants_and_unknown_families_are_both_unrecognized() {
    // unknown variants within a known family
    assert_eq!(Instruction::from_op_code(0x8AB8), None);
    assert_eq!(Instruction::from_op_code(0x8ABD), None);
    assert_eq!(Instruction::from_op_code(0x8ABF), None);
    assert_eq!(Instruction::from_op_code(0xE500), None);
    assert_eq!(Instruction::from_op_code(0xE59F), None);
    assert_eq!(Instruction::from_op_code(0xF200), None);
    assert_eq!(Instruction::from_op_code(0xF2FF), None);
    // an unknown family
    assert_eq!(Instruction::from_op_code(0xB000), None);
    assert_eq!(Instruction::from_op_code(0xBFFF), None);
}

#[test]
fn the_last_digit_is_ignored_where_the_family_has_one_instruction() {
    assert_eq!(
        Instruction::from_op_code(0x512F),
        Some(Instruction::SkipEqualReg { vx: 1, vy: 2 })
    );
    assert_eq!(
        Instruction::from_op_code(0x9127),
        Some(Instruction::SkipNotEqualReg { vx: 1, vy: 2 })
    );
}

#[test]
fn decoding_is_total_and_deterministic() {
    let mut unrecognized: u32 = 0;
    for op_code in 0..=0xFFFFu16 {
        let first = Instruction::from_op_code(op_code);
        let second = Instruction::from_op_code(op_code);
        assert_eq!(first, second);
        match first {
            None => unrecognized += 1,
            Some(instruction) => assert!(instruction.has_registers_in_range()),
        }
    }
    // family B: 4096; family 8: 7 of 16 last digits; family E: 254 of 256 low
    // bytes; family F: 247 of 256 low bytes
    assert_eq!(unrecognized, 4096 + 7 * 256 + 254 * 16 + 247 * 16);
}

#[test]
fn register_range_check_tells_made_up_operands_apart() {
    assert!(Instruction::Add { vx: 15, vy: 0 }.has_registers_in_range());
    assert!(!Instruction::Add { vx: 16, vy: 0 }.has_registers_in_range());
    assert!(!Instruction::Add { vx: 0, vy: 16 }.has_registers_in_range());
    assert!(!Instruction::Store { n: 16 }.has_registers_in_range());
    assert!(!Instruction::GetKey { v: 99 }.has_registers_in_range());
    assert!(Instruction::Jump { address: 0xFFFF }.has_registers_in_range());
    assert!(Instruction::ClearScreen.has_registers_in_range());
}
